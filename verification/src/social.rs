use vstd::prelude::*;

verus! {

/// Number of entries the event log keeps.
pub const MAX_EVENTS: usize = 100;

/// Number of recent ticks the protest history covers.
pub const PROTEST_WINDOW: usize = 20;

/// What one tick does to a reform movement.
#[derive(Clone, Copy, Debug, PartialEq, Eq, Structural)]
pub enum ReformUpdate {
    /// No reform is under way; nothing changes.
    Idle,
    /// The reform goes on with `remaining` ticks left; its strength decays.
    Continue { remaining: u64 },
    /// The reform has run its course and ends.
    Expire,
}

/// What one tick does to a reform with the given activity and remaining
/// duration.
pub open spec fn spec_reform_update(active: bool, duration: u64) -> ReformUpdate {
    if !active {
        ReformUpdate::Idle
    } else if duration > 0 {
        ReformUpdate::Continue { remaining: (duration - 1) as u64 }
    } else {
        ReformUpdate::Expire
    }
}

/// The activity and remaining duration of a reform after one tick.
pub open spec fn reform_after_tick(active: bool, duration: u64) -> (bool, u64) {
    match spec_reform_update(active, duration) {
        ReformUpdate::Idle => (active, duration),
        ReformUpdate::Continue { remaining } => (true, remaining),
        ReformUpdate::Expire => (false, duration),
    }
}

/// The activity and remaining duration of a reform after `k` ticks.
pub open spec fn reform_after_ticks(active: bool, duration: u64, k: nat) -> (bool, u64)
    decreases k,
{
    if k == 0 {
        (active, duration)
    } else {
        let prev = reform_after_ticks(active, duration, (k - 1) as nat);
        reform_after_tick(prev.0, prev.1)
    }
}

/// Decides what one tick does to a reform: count down while time remains,
/// end it when none does.
pub fn reform_update(active: bool, duration: u64) -> (update: ReformUpdate)
    ensures
        update == spec_reform_update(active, duration),
{
    if active {
        if duration > 0 {
            ReformUpdate::Continue { remaining: duration - 1 }
        } else {
            ReformUpdate::Expire
        }
    } else {
        ReformUpdate::Idle
    }
}

/// A reform started for `d` ticks stays active through `d + 1` updates'
/// worth of countdown: after `k <= d` ticks it is active with `d - k` left,
/// and from tick `d + 1` on it is over.
pub proof fn lemma_reform_runs_its_course(d: u64, k: nat)
    ensures
        k <= d ==> reform_after_ticks(true, d, k) == (true, (d - k) as u64),
        k > d ==> reform_after_ticks(true, d, k) == (false, 0u64),
    decreases k,
{
    if k > 0 {
        lemma_reform_runs_its_course(d, (k - 1) as nat);
    }
}

/// How tired of protesting the population is.
#[derive(Clone, Copy, Debug, PartialEq, Eq, Structural)]
pub enum FatigueLevel {
    /// At most five protests in the window.
    Fresh,
    /// Six to ten protests in the window.
    Moderate,
    /// More than ten protests in the window.
    High,
}

/// The number of protests recorded in a history.
pub open spec fn protest_count(history: Seq<bool>) -> nat
    decreases history.len(),
{
    if history.len() == 0 {
        0
    } else {
        protest_count(history.drop_last()) + if history.last() { 1nat } else { 0nat }
    }
}

/// The fatigue that a number of recent protests produces.
pub open spec fn spec_fatigue_level(recent: nat) -> FatigueLevel {
    if recent > 10 {
        FatigueLevel::High
    } else if recent > 5 {
        FatigueLevel::Moderate
    } else {
        FatigueLevel::Fresh
    }
}

/// The rank of a fatigue level: higher is more tired.
pub open spec fn fatigue_rank(level: FatigueLevel) -> int {
    match level {
        FatigueLevel::Fresh => 0,
        FatigueLevel::Moderate => 1,
        FatigueLevel::High => 2,
    }
}

/// Counts the protests in a history.
pub fn count_protests(history: &[bool]) -> (count: usize)
    ensures
        count == protest_count(history@),
        count <= history@.len(),
{
    let mut count: usize = 0;
    let mut i: usize = 0;
    while i < history.len()
        invariant
            i <= history@.len(),
            count == protest_count(history@.take(i as int)),
            count <= i,
        decreases history@.len() - i,
    {
        assert(history@.take(i + 1).drop_last() =~= history@.take(i as int));
        if history[i] {
            count += 1;
        }
        i += 1;
    }
    assert(history@.take(history@.len() as int) =~= history@);
    count
}

/// The fatigue that `recent` protests produce.
pub fn fatigue_level(recent: usize) -> (level: FatigueLevel)
    ensures
        level == spec_fatigue_level(recent as nat),
{
    if recent > 10 {
        FatigueLevel::High
    } else if recent > 5 {
        FatigueLevel::Moderate
    } else {
        FatigueLevel::Fresh
    }
}

/// The protest fatigue of a protest history.
pub fn protest_fatigue(history: &[bool]) -> (level: FatigueLevel)
    ensures
        level == spec_fatigue_level(protest_count(history@)),
{
    fatigue_level(count_protests(history))
}

/// More protests never mean less fatigue.
pub proof fn lemma_fatigue_monotone(a: nat, b: nat)
    requires
        a <= b,
    ensures
        fatigue_rank(spec_fatigue_level(a)) <= fatigue_rank(spec_fatigue_level(b)),
{
}

/// Recording a protest raises the count by one, recording a quiet tick
/// leaves it, before the window drops its oldest entry.
pub proof fn lemma_protest_count_push(history: Seq<bool>, had_protest: bool)
    ensures
        protest_count(history.push(had_protest)) == protest_count(history) + if had_protest { 1nat } else { 0nat },
{
    assert(history.push(had_protest).drop_last() =~= history);
}

} // verus!
