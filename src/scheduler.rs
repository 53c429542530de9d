//! The decisions of a periodic task: read the interval at the top of each
//! cycle, sleep for it, then work unless shutdown was asked for meanwhile.
//! The caller performs each action and reports whether shutdown is set.
use vstd::prelude::*;

verus! {

/// Where a periodic task stands in its cycle.
#[derive(Clone, Copy, Debug, PartialEq, Eq, Structural)]
pub enum TaskPhase {
    /// At the top of a cycle: the next step reads the interval.
    Ready,
    /// Back from a sleep: the next step works.
    Slept,
    /// Shut down.
    Stopped,
}

/// What the caller does next.
#[derive(Clone, Copy, Debug, PartialEq, Eq, Structural)]
pub enum TaskAction {
    /// Sleep this many milliseconds.
    Sleep(u64),
    /// Run one unit of work (one analysis, or one control decision).
    Work,
    /// Leave the loop.
    Exit,
}

/// The phase after a step taken in `phase`.
pub open spec fn next_phase(phase: TaskPhase, shutdown: bool) -> TaskPhase {
    if shutdown {
        TaskPhase::Stopped
    } else {
        match phase {
            TaskPhase::Ready => TaskPhase::Slept,
            TaskPhase::Slept => TaskPhase::Ready,
            TaskPhase::Stopped => TaskPhase::Stopped,
        }
    }
}

/// The action of a step taken in `phase`, with `interval_ms` the interval
/// that the configuration holds at that moment.
pub open spec fn next_action(phase: TaskPhase, shutdown: bool, interval_ms: u64) -> TaskAction {
    if shutdown {
        TaskAction::Exit
    } else {
        match phase {
            TaskPhase::Ready => TaskAction::Sleep(interval_ms),
            TaskPhase::Slept => TaskAction::Work,
            TaskPhase::Stopped => TaskAction::Exit,
        }
    }
}

/// A periodic task's state.
#[derive(Clone, Copy, Debug, PartialEq, Eq, Structural)]
pub struct PeriodicTask {
    pub phase: TaskPhase,
}

impl PeriodicTask {
    /// A task at the top of its first cycle.
    pub fn new() -> (r: Self)
        ensures
            r.phase == TaskPhase::Ready,
    {
        PeriodicTask { phase: TaskPhase::Ready }
    }

    /// One step: `shutdown` is the flag as observed now, `interval_ms` the
    /// interval of the configuration as read now.
    pub fn step(&mut self, shutdown: bool, interval_ms: u64) -> (r: TaskAction)
        ensures
            r == next_action(old(self).phase, shutdown, interval_ms),
            final(self).phase == next_phase(old(self).phase, shutdown),
    {
        if shutdown {
            self.phase = TaskPhase::Stopped;
            TaskAction::Exit
        } else {
            match self.phase {
                TaskPhase::Ready => {
                    self.phase = TaskPhase::Slept;
                    TaskAction::Sleep(interval_ms)
                },
                TaskPhase::Slept => {
                    self.phase = TaskPhase::Ready;
                    TaskAction::Work
                },
                TaskPhase::Stopped => TaskAction::Exit,
            }
        }
    }
}

/// What the caller observes at one step: the shutdown flag and the interval
/// that the configuration holds.
pub struct Observation {
    pub shutdown: bool,
    pub interval_ms: u64,
}

/// The phase after the first `i` steps of a run from `phase`.
pub open spec fn phase_at(phase: TaskPhase, obs: Seq<Observation>, i: nat) -> TaskPhase
    decreases i,
{
    if i == 0 {
        phase
    } else {
        let p = phase_at(phase, obs, (i - 1) as nat);
        next_phase(p, obs[i - 1].shutdown)
    }
}

/// The action taken at step `i` of a run from `phase`.
pub open spec fn action_at(phase: TaskPhase, obs: Seq<Observation>, i: nat) -> TaskAction {
    next_action(phase_at(phase, obs, i), obs[i as int].shutdown, obs[i as int].interval_ms)
}

/// Every sleep of a run lasts the interval that the configuration held at
/// the step that began it.
pub proof fn lemma_sleep_uses_interval_read_then(phase: TaskPhase, obs: Seq<Observation>, i: nat)
    requires
        i < obs.len(),
        action_at(phase, obs, i) is Sleep,
    ensures
        action_at(phase, obs, i) == TaskAction::Sleep(obs[i as int].interval_ms),
{
}

/// The phases of a run depend on the shutdown flags alone.
proof fn lemma_phase_ignores_intervals(
    phase: TaskPhase,
    obs: Seq<Observation>,
    other: Seq<Observation>,
    i: nat,
)
    requires
        i <= obs.len(),
        obs.len() == other.len(),
        forall|j: int| 0 <= j < obs.len() ==> obs[j].shutdown == other[j].shutdown,
    ensures
        phase_at(phase, obs, i) == phase_at(phase, other, i),
    decreases i,
{
    if i > 0 {
        lemma_phase_ignores_intervals(phase, obs, other, (i - 1) as nat);
    }
}

/// A change of the interval takes effect at the next sleep, not during one:
/// two runs that see the same shutdown flags, and the same interval at every
/// step that begins a cycle, take the same actions, whatever interval the
/// configuration holds at the other steps.
pub proof fn lemma_interval_change_waits_for_next_cycle(
    phase: TaskPhase,
    obs: Seq<Observation>,
    other: Seq<Observation>,
)
    requires
        obs.len() == other.len(),
        forall|j: int| 0 <= j < obs.len() ==> obs[j].shutdown == other[j].shutdown,
        forall|j: nat|
            j < obs.len() && phase_at(phase, obs, j) == TaskPhase::Ready ==> obs[j as int].interval_ms
                == other[j as int].interval_ms,
    ensures
        forall|j: nat| j < obs.len() ==> action_at(phase, obs, j) == action_at(phase, other, j),
{
    assert forall|j: nat| j < obs.len() implies action_at(phase, obs, j) == action_at(
        phase,
        other,
        j,
    ) by {
        lemma_phase_ignores_intervals(phase, obs, other, j);
    }
}

} // verus!
