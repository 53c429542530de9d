use edenfx::buffer::SampleBuffer;

#[test]
fn new_buffer_is_empty() {
    let b: SampleBuffer<f32> = SampleBuffer::new(8);
    assert!(b.is_empty());
    assert_eq!(b.len(), 0);
    assert!(b.samples().is_empty());
}

#[test]
fn samples_are_kept_in_arrival_order() {
    let mut b: SampleBuffer<f32> = SampleBuffer::new(8);
    b.add_samples(&[0.1, 0.2], 8);
    b.add_samples(&[0.3], 8);
    assert_eq!(b.samples(), &[0.1, 0.2, 0.3]);
    assert_eq!(b.len(), 3);
}

#[test]
fn eviction_drops_oldest_first() {
    let mut b: SampleBuffer<i32> = SampleBuffer::new(4);
    b.add_samples(&[1, 2, 3], 4);
    b.add_samples(&[4, 5, 6], 4);
    assert_eq!(b.samples(), &[3, 4, 5, 6]);
    b.add_samples(&[7], 4);
    assert_eq!(b.samples(), &[4, 5, 6, 7]);
}

#[test]
fn chunk_larger_than_buffer_keeps_its_tail() {
    let mut b: SampleBuffer<i32> = SampleBuffer::new(3);
    b.add_samples(&[1], 3);
    let chunk: Vec<i32> = (10..20).collect();
    b.add_samples(&chunk, 3);
    assert_eq!(b.samples(), &[17, 18, 19]);
}

#[test]
fn eviction_holds_for_every_chunking() {
    let input: Vec<i32> = (0..50).collect();
    for chunk_len in 1..12usize {
        let mut b: SampleBuffer<i32> = SampleBuffer::new(16);
        for chunk in input.chunks(chunk_len) {
            b.add_samples(chunk, 16);
            assert!(b.len() <= 16);
        }
        assert_eq!(b.samples(), &input[34..]);
    }
}

#[test]
fn empty_chunk_changes_nothing() {
    let mut b: SampleBuffer<i32> = SampleBuffer::new(4);
    b.add_samples(&[1, 2], 4);
    b.add_samples(&[], 4);
    assert_eq!(b.samples(), &[1, 2]);
}

#[test]
fn smaller_buffer_size_evicts_on_next_add() {
    let mut b: SampleBuffer<i32> = SampleBuffer::new(8);
    b.add_samples(&[1, 2, 3, 4, 5, 6], 8);
    b.add_samples(&[7], 2);
    assert_eq!(b.samples(), &[6, 7]);
}

#[test]
fn latest_is_none_during_warm_up() {
    let mut b: SampleBuffer<f32> = SampleBuffer::new(4);
    assert!(b.latest(4).is_none());
    b.add_samples(&[0.5, 0.5, 0.5], 4);
    assert!(b.latest(4).is_none());
    b.add_samples(&[0.25], 4);
    assert_eq!(b.latest(4), Some(&[0.5, 0.5, 0.5, 0.25][..]));
}

#[test]
fn latest_takes_the_most_recent_window() {
    let mut b: SampleBuffer<i32> = SampleBuffer::new(6);
    b.add_samples(&[1, 2, 3, 4, 5, 6], 6);
    assert_eq!(b.latest(3), Some(&[4, 5, 6][..]));
    assert_eq!(b.latest(0), Some(&[][..]));
}

#[test]
fn reading_twice_gives_the_same_window() {
    let mut b: SampleBuffer<f32> = SampleBuffer::new(4);
    b.add_samples(&[0.1, -0.2, 0.3, -0.4, 0.5], 4);
    let first: Vec<f32> = b.latest(4).unwrap().to_vec();
    let second: Vec<f32> = b.latest(4).unwrap().to_vec();
    assert_eq!(first, second);
    assert_eq!(first, vec![-0.2, 0.3, -0.4, 0.5]);
}
