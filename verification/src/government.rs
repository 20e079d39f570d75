use vstd::prelude::*;
use crate::history::{bounded_push, bounded_push_all, lemma_history_keeps_most_recent, push_bounded};

verus! {

/// Number of ticks in a term once an election has been held.
pub const TERM_LENGTH: u32 = 50;

/// Number of past ruling ideologies the policy queue keeps.
pub const POLICY_WINDOW: usize = 15;

/// How many entries back from the newest the economy reads its policy.
pub const POLICY_LAG: usize = 10;

/// The government: the ruling ideology, the ticks left in its term, the
/// ideology it replaced, and the queue of recent ruling ideologies through
/// which policy reaches the economy with a delay.
///
/// The ideology type is a parameter: the government carries its values but
/// never computes with them.
#[derive(Clone, Debug)]
pub struct Government<I> {
    pub current_ideology: I,
    pub term_remaining: u32,
    pub previous_ideology: I,
    pub policy_queue: Vec<I>,
}

/// The term left after one countdown step.
pub open spec fn term_after_tick(term: u32) -> u32 {
    if term > 0 { (term - 1) as u32 } else { 0 }
}

/// The term left after `k` countdown steps.
pub open spec fn term_after_ticks(term: u32, k: nat) -> u32
    decreases k,
{
    if k == 0 { term } else { term_after_tick(term_after_ticks(term, (k - 1) as nat)) }
}

/// The ideology that reaches the economy from a policy queue: the entry
/// `POLICY_LAG` back from the end, or the current ideology while the queue
/// is shorter than that.
pub open spec fn lagged_ideology<I>(queue: Seq<I>, current: I) -> I {
    if queue.len() >= POLICY_LAG {
        queue[queue.len() - POLICY_LAG]
    } else {
        current
    }
}

/// The term left at the end of a tick that began with `term` ticks left:
/// when the term had run out, an election starts a new term first; then one
/// tick is counted off.
pub open spec fn next_term(term: u32) -> u32 {
    if term == 0 { (TERM_LENGTH - 1) as u32 } else { (term - 1) as u32 }
}

/// The term left after `k` ticks starting with `term` ticks left.
pub open spec fn term_after_schedule(term: u32, k: nat) -> u32
    decreases k,
{
    if k == 0 { term } else { term_after_schedule(next_term(term), (k - 1) as nat) }
}

/// The number of elections held in `k` ticks starting with `term` ticks
/// left: one in each tick that begins with the term run out.
pub open spec fn elections_in(term: u32, k: nat) -> nat
    decreases k,
{
    if k == 0 {
        0
    } else {
        (if term == 0 { 1nat } else { 0nat }) + elections_in(next_term(term), (k - 1) as nat)
    }
}

impl<I: Copy> Government<I> {
    /// A government of the given ideology with `term_length` ticks to run and
    /// a full policy queue holding that ideology.
    pub fn new(ideology: I, term_length: u32) -> (g: Self)
        ensures
            g.current_ideology == ideology,
            g.previous_ideology == ideology,
            g.term_remaining == term_length,
            g.policy_queue@ == Seq::new(POLICY_WINDOW as nat, |_i: int| ideology),
    {
        let mut queue: Vec<I> = Vec::new();
        let mut k: usize = 0;
        while k < POLICY_WINDOW
            invariant
                k <= POLICY_WINDOW,
                queue@ == Seq::new(k as nat, |_i: int| ideology),
            decreases POLICY_WINDOW - k,
        {
            queue.push(ideology);
            k += 1;
            assert(queue@ =~= Seq::new(k as nat, |_i: int| ideology));
        }
        Government {
            current_ideology: ideology,
            term_remaining: term_length,
            previous_ideology: ideology,
            policy_queue: queue,
        }
    }

    /// Counts one tick off the term, stopping at zero.
    pub fn update_term(&mut self)
        ensures
            final(self).term_remaining == term_after_tick(old(self).term_remaining),
            final(self).current_ideology == old(self).current_ideology,
            final(self).previous_ideology == old(self).previous_ideology,
            final(self).policy_queue@ == old(self).policy_queue@,
    {
        if self.term_remaining > 0 {
            self.term_remaining -= 1;
        }
    }

    /// Records the current ideology in the policy queue, which keeps the
    /// latest `POLICY_WINDOW` entries.
    pub fn update_policy_queue(&mut self)
        ensures
            final(self).policy_queue@ == bounded_push(
                old(self).policy_queue@,
                old(self).current_ideology,
                POLICY_WINDOW as nat,
            ),
            final(self).current_ideology == old(self).current_ideology,
            final(self).previous_ideology == old(self).previous_ideology,
            final(self).term_remaining == old(self).term_remaining,
    {
        let current = self.current_ideology;
        push_bounded(&mut self.policy_queue, current, POLICY_WINDOW);
    }

    /// The ideology from `POLICY_LAG` entries back, which is what drives the
    /// economy now; the current ideology while the queue is not that long.
    pub fn get_lagged_ideology(&self) -> (ideology: I)
        ensures
            ideology == lagged_ideology(self.policy_queue@, self.current_ideology),
    {
        let n = self.policy_queue.len();
        if n >= POLICY_LAG {
            self.policy_queue[n - POLICY_LAG]
        } else {
            self.current_ideology
        }
    }

    /// An election is due once the term has run out.
    pub fn is_election_due(&self) -> (due: bool)
        ensures
            due == (self.term_remaining == 0),
    {
        self.term_remaining == 0
    }

    /// Closes a tick of the government: the election outcome is installed
    /// when one was due (`election` holds it exactly then), a tick is counted
    /// off the term, and the ruling ideology is recorded in the policy queue.
    pub fn end_tick(&mut self, election: Option<I>)
        requires
            election is Some <==> old(self).term_remaining == 0,
        ensures
            final(self).term_remaining == next_term(old(self).term_remaining),
            election matches Some(outcome) ==> final(self).current_ideology == outcome
                && final(self).previous_ideology == old(self).current_ideology,
            election is None ==> final(self).current_ideology == old(self).current_ideology
                && final(self).previous_ideology == old(self).previous_ideology,
            final(self).policy_queue@ == bounded_push(
                old(self).policy_queue@,
                final(self).current_ideology,
                POLICY_WINDOW as nat,
            ),
    {
        if let Some(outcome) = election {
            self.conclude_election(outcome);
        }
        self.update_term();
        self.update_policy_queue();
    }

    /// Installs the outcome of an election: the ruling ideology becomes the
    /// previous one, `outcome` rules, and a new term of `TERM_LENGTH` ticks
    /// begins.
    pub fn conclude_election(&mut self, outcome: I)
        ensures
            final(self).previous_ideology == old(self).current_ideology,
            final(self).current_ideology == outcome,
            final(self).term_remaining == TERM_LENGTH,
            final(self).policy_queue@ == old(self).policy_queue@,
    {
        self.previous_ideology = self.current_ideology;
        self.current_ideology = outcome;
        self.term_remaining = TERM_LENGTH;
    }
}

/// A term of `t` ticks runs out after exactly `t` countdown steps: before
/// that no election is due, from then on one is.
pub proof fn lemma_term_runs_out(t: u32, k: nat)
    ensures
        k < t ==> term_after_ticks(t, k) == t - k && term_after_ticks(t, k) > 0,
        k >= t ==> term_after_ticks(t, k) == 0,
    decreases k,
{
    if k > 0 {
        lemma_term_runs_out(t, (k - 1) as nat);
    }
}

/// While time remains in the term, each tick counts one off and no election
/// is held.
pub proof fn lemma_schedule_counts_down(t: u32, k: nat)
    requires
        k <= t,
    ensures
        term_after_schedule(t, k) == t - k,
        elections_in(t, k) == 0,
    decreases k,
{
    if k > 0 {
        lemma_schedule_counts_down((t - 1) as u32, (k - 1) as nat);
    }
}

/// After a term of `t` ticks has run down, the schedule continues as from a
/// term that has just run out.
pub proof fn lemma_schedule_reaches_zero(t: u32, j: nat)
    ensures
        term_after_schedule(t, (t + j) as nat) == term_after_schedule(0, j),
        elections_in(t, (t + j) as nat) == elections_in(0, j),
    decreases t,
{
    if t > 0 {
        lemma_schedule_reaches_zero((t - 1) as u32, j);
        assert((t + j - 1) as nat == (t - 1) + j);
    }
}

/// Election schedule: a government with `t` ticks left holds its next
/// election in tick `t` (counting from 0), and for the `TERM_LENGTH` ticks
/// from there on exactly one election has been held, with the new term
/// counting down from `TERM_LENGTH - 1`.
pub proof fn lemma_election_schedule(t: u32, m: nat)
    requires
        m < TERM_LENGTH,
    ensures
        elections_in(t, t as nat) == 0,
        term_after_schedule(t, t as nat) == 0,
        elections_in(t, (t + 1 + m) as nat) == 1,
        term_after_schedule(t, (t + 1 + m) as nat) == TERM_LENGTH - 1 - m,
{
    lemma_schedule_counts_down(t, t as nat);
    lemma_schedule_reaches_zero(t, (1 + m) as nat);
    lemma_schedule_counts_down((TERM_LENGTH - 1) as u32, m);
    assert(term_after_schedule(0, (1 + m) as nat) == term_after_schedule((TERM_LENGTH - 1) as u32, m));
    assert(elections_in(0, (1 + m) as nat) == 1 + elections_in((TERM_LENGTH - 1) as u32, m));
}

/// A fresh government with a full term holds its first election in tick 50;
/// after 60 ticks exactly one election has been held and 40 ticks remain.
pub proof fn lemma_sixty_ticks_from_a_full_term()
    ensures
        elections_in(TERM_LENGTH, 60) == 1,
        term_after_schedule(TERM_LENGTH, 60) == 40,
{
    lemma_election_schedule(TERM_LENGTH, 9);
}

/// A full policy queue stays full: recording an ideology drops exactly the
/// oldest entry.
pub proof fn lemma_policy_queue_stays_full<I>(queue: Seq<I>, current: I)
    requires
        queue.len() == POLICY_WINDOW,
    ensures
        bounded_push(queue, current, POLICY_WINDOW as nat).len() == POLICY_WINDOW,
        bounded_push(queue, current, POLICY_WINDOW as nat) == queue.drop_first().push(current),
{
    assert(queue.push(current).drop_first() =~= queue.drop_first().push(current));
}

/// Policy lag: starting from a full queue, after the ruling ideologies
/// `recorded` have been recorded one per tick, the economy is driven by the
/// ideology recorded `POLICY_LAG` ticks ago.
pub proof fn lemma_policy_lag<I>(queue: Seq<I>, recorded: Seq<I>, current: I)
    requires
        queue.len() == POLICY_WINDOW,
        recorded.len() >= POLICY_LAG,
    ensures
        lagged_ideology(bounded_push_all(queue, recorded, POLICY_WINDOW as nat), current)
            == recorded[recorded.len() - POLICY_LAG],
{
    let all = queue + recorded;
    lemma_history_keeps_most_recent(queue, recorded, POLICY_WINDOW as nat);
    let q = bounded_push_all(queue, recorded, POLICY_WINDOW as nat);
    assert(q == all.skip(all.len() - POLICY_WINDOW));
    assert(q.len() == POLICY_WINDOW);
    assert(q[q.len() - POLICY_LAG] == all[all.len() - POLICY_LAG]);
    assert(all[all.len() - POLICY_LAG] == recorded[recorded.len() - POLICY_LAG]);
}

} // verus!
