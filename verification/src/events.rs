use vstd::prelude::*;
use crate::config::same_text;
use crate::history::{bounded_push, push_bounded};
use crate::social::{
    protest_count, protest_fatigue, reform_update, spec_fatigue_level, spec_reform_update,
    FatigueLevel, ReformUpdate, PROTEST_WINDOW,
};

verus! {

/// Ticks after a protest during which no further protest starts.
pub const PROTEST_COOLDOWN: u64 = 20;

/// Ticks after a protest during which no spontaneous uprising starts.
pub const UPRISING_COOLDOWN: u64 = 15;

/// Ticks after a crisis during which no crisis or boom happens.
pub const CRISIS_COOLDOWN: u64 = 30;

/// Ticks after a reform movement during which no new one starts.
pub const REFORM_COOLDOWN: u64 = 40;

/// Ticks after a reform movement during which no recovery period begins.
pub const RECOVERY_COOLDOWN: u64 = 50;

/// Ticks after a reform movement during which no period of harmony begins.
pub const HARMONY_COOLDOWN: u64 = 60;

/// Ticks a reform movement lasts.
pub const REFORM_DURATION: u64 = 30;

/// Ticks a major reform after prolonged hardship lasts.
pub const MAJOR_REFORM_DURATION: u64 = 60;

/// Ticks of hardship after which the society goes through a phase
/// transition.
pub const TRANSITION_HARDSHIP: u64 = 150;

/// The kinds of event whose cooldowns are tracked.
#[derive(Clone, Copy, Debug, PartialEq, Eq, Structural)]
pub enum EventKind {
    Protest,
    Reform,
    Crisis,
}

/// What the economy goes through in a tick.
#[derive(Clone, Copy, Debug, PartialEq, Eq, Structural)]
pub enum EconomicEvent {
    Crisis,
    Boom,
    Calm,
}

/// The phase transitions that prolonged hardship forces.
#[derive(Clone, Copy, Debug, PartialEq, Eq, Structural)]
pub enum Transition {
    Collapse,
    MajorReform,
    Polarization,
}

/// The bookkeeping of social events: when each kind last happened, the
/// recent protest window, the reform under way and how long hardship has
/// lasted. The reform strength is a parameter: the book carries it and
/// installs the values its caller computes.
#[derive(Clone, Debug)]
pub struct EventBook<S> {
    pub last_protest_tick: Option<u64>,
    pub last_reform_tick: Option<u64>,
    pub last_crisis_tick: Option<u64>,
    pub protest_history: Vec<bool>,
    pub reform_active: bool,
    pub reform_duration: u64,
    pub reform_strength: S,
    pub hardship_duration: u64,
}

/// Whether an event whose last occurrence is `last` (none yet when `None`)
/// is still cooling down at `tick`: fewer than `cooldown_ticks` ticks have
/// passed since it happened.
pub open spec fn spec_on_cooldown(last: Option<u64>, tick: u64, cooldown_ticks: u64) -> bool {
    match last {
        Some(t) => tick - t < cooldown_ticks,
        None => false,
    }
}

/// The kind an event name stands for (`"protest"`, `"reform"`, `"crisis"`).
pub open spec fn spec_kind_of(event_type: Seq<char>) -> Option<EventKind> {
    if event_type == "protest"@ {
        Some(EventKind::Protest)
    } else if event_type == "reform"@ {
        Some(EventKind::Reform)
    } else if event_type == "crisis"@ {
        Some(EventKind::Crisis)
    } else {
        None
    }
}

/// The kind an event name stands for, as `spec_kind_of` says.
pub fn kind_of(event_type: &str) -> (kind: Option<EventKind>)
    ensures
        kind == spec_kind_of(event_type@),
{
    if same_text(event_type, "protest") {
        Some(EventKind::Protest)
    } else if same_text(event_type, "reform") {
        Some(EventKind::Reform)
    } else if same_text(event_type, "crisis") {
        Some(EventKind::Crisis)
    } else {
        None
    }
}

/// The effect of a crisis or boom check: a crisis when the chance fell below
/// the crisis threshold and crises are not cooling down, otherwise a boom
/// when it fell below the boom threshold and crises are not cooling down.
pub open spec fn spec_economic_event(below_crisis: bool, below_boom: bool, crisis_cooling: bool) -> EconomicEvent {
    if below_crisis && !crisis_cooling {
        EconomicEvent::Crisis
    } else if below_boom && !crisis_cooling {
        EconomicEvent::Boom
    } else {
        EconomicEvent::Calm
    }
}

impl<S: Copy> EventBook<S> {
    /// When an event of `kind` last happened.
    pub open spec fn spec_last(&self, kind: EventKind) -> Option<u64> {
        match kind {
            EventKind::Protest => self.last_protest_tick,
            EventKind::Reform => self.last_reform_tick,
            EventKind::Crisis => self.last_crisis_tick,
        }
    }

    /// When an event of the named kind last happened; a name of no tracked
    /// kind counts as an event at tick 0.
    pub open spec fn spec_last_named(&self, event_type: Seq<char>) -> Option<u64> {
        match spec_kind_of(event_type) {
            Some(kind) => self.spec_last(kind),
            None => Some(0),
        }
    }

    /// No recorded event lies after `tick`.
    pub open spec fn recorded_by(&self, tick: u64) -> bool {
        &&& self.last_protest_tick matches Some(t) ==> t <= tick
        &&& self.last_reform_tick matches Some(t) ==> t <= tick
        &&& self.last_crisis_tick matches Some(t) ==> t <= tick
    }

    /// A book with no event yet, a quiet protest window, no reform (with
    /// strength `no_strength`) and no hardship.
    pub fn new(no_strength: S) -> (book: Self)
        ensures
            book.last_protest_tick is None,
            book.last_reform_tick is None,
            book.last_crisis_tick is None,
            book.protest_history@ == Seq::new(PROTEST_WINDOW as nat, |_i: int| false),
            !book.reform_active,
            book.reform_duration == 0,
            book.reform_strength == no_strength,
            book.hardship_duration == 0,
    {
        let mut history: Vec<bool> = Vec::new();
        let mut k: usize = 0;
        while k < PROTEST_WINDOW
            invariant
                k <= PROTEST_WINDOW,
                history@ == Seq::new(k as nat, |_i: int| false),
            decreases PROTEST_WINDOW - k,
        {
            history.push(false);
            k += 1;
            assert(history@ =~= Seq::new(k as nat, |_i: int| false));
        }
        EventBook {
            last_protest_tick: None,
            last_reform_tick: None,
            last_crisis_tick: None,
            protest_history: history,
            reform_active: false,
            reform_duration: 0,
            reform_strength: no_strength,
            hardship_duration: 0,
        }
    }

    /// Whether an event of `kind` is still cooling down at `tick`.
    pub fn on_cooldown(&self, kind: EventKind, tick: u64, cooldown_ticks: u64) -> (cooling: bool)
        requires
            self.recorded_by(tick),
        ensures
            cooling == spec_on_cooldown(self.spec_last(kind), tick, cooldown_ticks),
    {
        let last = match kind {
            EventKind::Protest => self.last_protest_tick,
            EventKind::Reform => self.last_reform_tick,
            EventKind::Crisis => self.last_crisis_tick,
        };
        match last {
            Some(t) => tick - t < cooldown_ticks,
            None => false,
        }
    }

    /// Whether an event of the named kind (`"protest"`, `"reform"`,
    /// `"crisis"`) is still cooling down at `tick`: it has happened and fewer
    /// than `cooldown_ticks` ticks have passed since. Any other name counts
    /// as an event at tick 0.
    pub fn is_event_on_cooldown(&self, event_type: &str, tick: u64, cooldown_ticks: u64) -> (cooling: bool)
        requires
            self.recorded_by(tick),
        ensures
            cooling == spec_on_cooldown(self.spec_last_named(event_type@), tick, cooldown_ticks),
    {
        match kind_of(event_type) {
            Some(kind) => self.on_cooldown(kind, tick, cooldown_ticks),
            None => tick < cooldown_ticks,
        }
    }

    /// Records whether a protest took place this tick in the protest window.
    pub fn update_protest_history(&mut self, had_protest: bool)
        ensures
            final(self).protest_history@ == bounded_push(
                old(self).protest_history@,
                had_protest,
                PROTEST_WINDOW as nat,
            ),
            final(self).last_protest_tick == old(self).last_protest_tick,
            final(self).last_reform_tick == old(self).last_reform_tick,
            final(self).last_crisis_tick == old(self).last_crisis_tick,
            final(self).reform_active == old(self).reform_active,
            final(self).reform_duration == old(self).reform_duration,
            final(self).reform_strength == old(self).reform_strength,
            final(self).hardship_duration == old(self).hardship_duration,
    {
        push_bounded(&mut self.protest_history, had_protest, PROTEST_WINDOW);
    }

    /// How tired of protesting the population is.
    pub fn protest_fatigue(&self) -> (level: FatigueLevel)
        ensures
            level == spec_fatigue_level(protest_count(self.protest_history@)),
    {
        protest_fatigue(self.protest_history.as_slice())
    }

    /// Decides the economic event of tick `tick`, given whether the event
    /// chance fell below the crisis and the boom thresholds, and records a
    /// crisis.
    pub fn economic_round(&mut self, tick: u64, below_crisis: bool, below_boom: bool) -> (event: EconomicEvent)
        requires
            old(self).recorded_by(tick),
        ensures
            event == spec_economic_event(
                below_crisis,
                below_boom,
                spec_on_cooldown(old(self).last_crisis_tick, tick, CRISIS_COOLDOWN),
            ),
            final(self).last_crisis_tick == if event == EconomicEvent::Crisis {
                Some(tick)
            } else {
                old(self).last_crisis_tick
            },
            final(self).last_protest_tick == old(self).last_protest_tick,
            final(self).last_reform_tick == old(self).last_reform_tick,
            final(self).protest_history@ == old(self).protest_history@,
            final(self).reform_active == old(self).reform_active,
            final(self).reform_duration == old(self).reform_duration,
            final(self).reform_strength == old(self).reform_strength,
            final(self).hardship_duration == old(self).hardship_duration,
            final(self).recorded_by(tick),
    {
        let cooling = self.on_cooldown(EventKind::Crisis, tick, CRISIS_COOLDOWN);
        if below_crisis && !cooling {
            self.last_crisis_tick = Some(tick);
            EconomicEvent::Crisis
        } else if below_boom && !cooling {
            EconomicEvent::Boom
        } else {
            EconomicEvent::Calm
        }
    }

    /// Whether a protest-like event (a protest, or an uprising) may start at
    /// `tick`: its conditions hold and protests are not cooling down for
    /// `cooldown_ticks`. Only then is the chance of it drawn.
    pub fn protest_gate(&self, tick: u64, conditions: bool, cooldown_ticks: u64) -> (open: bool)
        requires
            self.recorded_by(tick),
        ensures
            open == (conditions && !spec_on_cooldown(self.last_protest_tick, tick, cooldown_ticks)),
    {
        conditions && !self.on_cooldown(EventKind::Protest, tick, cooldown_ticks)
    }

    /// Settles a protest-like event at `tick`: it happens when its gate is
    /// open and the drawn chance succeeded (`draw` is given exactly when the
    /// gate is open). The protest window records whether it happened, and a
    /// protest that happened becomes the last one.
    pub fn protest_round(&mut self, tick: u64, conditions: bool, cooldown_ticks: u64, draw: Option<bool>) -> (happened: bool)
        requires
            old(self).recorded_by(tick),
            draw is Some <==> (conditions && !spec_on_cooldown(old(self).last_protest_tick, tick, cooldown_ticks)),
        ensures
            happened == (draw == Some(true)),
            final(self).protest_history@ == bounded_push(
                old(self).protest_history@,
                happened,
                PROTEST_WINDOW as nat,
            ),
            final(self).last_protest_tick == if happened { Some(tick) } else { old(self).last_protest_tick },
            final(self).last_reform_tick == old(self).last_reform_tick,
            final(self).last_crisis_tick == old(self).last_crisis_tick,
            final(self).reform_active == old(self).reform_active,
            final(self).reform_duration == old(self).reform_duration,
            final(self).reform_strength == old(self).reform_strength,
            final(self).hardship_duration == old(self).hardship_duration,
            final(self).recorded_by(tick),
    {
        let happened = match draw {
            Some(success) => success,
            None => false,
        };
        if happened {
            self.last_protest_tick = Some(tick);
        }
        self.update_protest_history(happened);
        happened
    }

    /// Starts a reform of `duration` ticks at the given strength.
    pub fn start_reform(&mut self, duration: u64, strength: S)
        ensures
            final(self).reform_active,
            final(self).reform_duration == duration,
            final(self).reform_strength == strength,
            final(self).last_protest_tick == old(self).last_protest_tick,
            final(self).last_reform_tick == old(self).last_reform_tick,
            final(self).last_crisis_tick == old(self).last_crisis_tick,
            final(self).protest_history@ == old(self).protest_history@,
            final(self).hardship_duration == old(self).hardship_duration,
    {
        self.reform_active = true;
        self.reform_duration = duration;
        self.reform_strength = strength;
    }

    /// Decides whether a reform movement starts at `tick`: it is wanted and
    /// reforms are not cooling down. One that starts becomes the last reform
    /// and runs for `REFORM_DURATION` ticks at `strength`.
    pub fn reform_round(&mut self, tick: u64, wanted: bool, strength: S) -> (started: bool)
        requires
            old(self).recorded_by(tick),
        ensures
            started == (wanted && !spec_on_cooldown(old(self).last_reform_tick, tick, REFORM_COOLDOWN)),
            started ==> final(self).last_reform_tick == Some(tick) && final(self).reform_active
                && final(self).reform_duration == REFORM_DURATION && final(self).reform_strength == strength,
            !started ==> final(self).last_reform_tick == old(self).last_reform_tick
                && final(self).reform_active == old(self).reform_active
                && final(self).reform_duration == old(self).reform_duration
                && final(self).reform_strength == old(self).reform_strength,
            final(self).last_protest_tick == old(self).last_protest_tick,
            final(self).last_crisis_tick == old(self).last_crisis_tick,
            final(self).protest_history@ == old(self).protest_history@,
            final(self).hardship_duration == old(self).hardship_duration,
            final(self).recorded_by(tick),
    {
        let started = wanted && !self.on_cooldown(EventKind::Reform, tick, REFORM_COOLDOWN);
        if started {
            self.last_reform_tick = Some(tick);
            self.start_reform(REFORM_DURATION, strength);
        }
        started
    }

    /// Counts down the reform under way: while time remains one tick is
    /// taken off and the strength becomes `decayed`; when none remains the
    /// reform ends with strength `spent`. Without a reform nothing changes.
    pub fn update_reform(&mut self, decayed: S, spent: S) -> (update: ReformUpdate)
        ensures
            update == spec_reform_update(old(self).reform_active, old(self).reform_duration),
            match update {
                ReformUpdate::Idle => final(self).reform_active == old(self).reform_active
                    && final(self).reform_duration == old(self).reform_duration
                    && final(self).reform_strength == old(self).reform_strength,
                ReformUpdate::Continue { remaining } => final(self).reform_active
                    && final(self).reform_duration == remaining
                    && final(self).reform_strength == decayed,
                ReformUpdate::Expire => !final(self).reform_active
                    && final(self).reform_duration == old(self).reform_duration
                    && final(self).reform_strength == spent,
            },
            final(self).last_protest_tick == old(self).last_protest_tick,
            final(self).last_reform_tick == old(self).last_reform_tick,
            final(self).last_crisis_tick == old(self).last_crisis_tick,
            final(self).protest_history@ == old(self).protest_history@,
            final(self).hardship_duration == old(self).hardship_duration,
    {
        let update = reform_update(self.reform_active, self.reform_duration);
        match update {
            ReformUpdate::Idle => {},
            ReformUpdate::Continue { remaining } => {
                self.reform_duration = remaining;
                self.reform_strength = decayed;
            },
            ReformUpdate::Expire => {
                self.reform_active = false;
                self.reform_strength = spent;
            },
        }
        update
    }

    /// Tracks how long hardship has lasted: one more tick while it goes on,
    /// back to zero when it ends.
    pub fn update_hardship(&mut self, in_hardship: bool)
        requires
            in_hardship ==> old(self).hardship_duration < u64::MAX,
        ensures
            final(self).hardship_duration == if in_hardship { old(self).hardship_duration + 1 } else { 0 },
            final(self).last_protest_tick == old(self).last_protest_tick,
            final(self).last_reform_tick == old(self).last_reform_tick,
            final(self).last_crisis_tick == old(self).last_crisis_tick,
            final(self).protest_history@ == old(self).protest_history@,
            final(self).reform_active == old(self).reform_active,
            final(self).reform_duration == old(self).reform_duration,
            final(self).reform_strength == old(self).reform_strength,
    {
        if in_hardship {
            self.hardship_duration += 1;
        } else {
            self.hardship_duration = 0;
        }
    }

    /// Whether hardship has lasted long enough to force a phase transition.
    pub fn transition_due(&self) -> (due: bool)
        ensures
            due == (self.hardship_duration > TRANSITION_HARDSHIP),
    {
        self.hardship_duration > TRANSITION_HARDSHIP
    }

    /// Books a phase transition: a collapse cuts the hardship count to a
    /// third, a major reform or polarization to a half; a major reform also
    /// starts a reform of `MAJOR_REFORM_DURATION` ticks at `strength`.
    pub fn apply_transition(&mut self, transition: Transition, strength: S)
        ensures
            final(self).hardship_duration == match transition {
                Transition::Collapse => old(self).hardship_duration / 3,
                _ => old(self).hardship_duration / 2,
            },
            transition == Transition::MajorReform ==> final(self).reform_active
                && final(self).reform_duration == MAJOR_REFORM_DURATION
                && final(self).reform_strength == strength,
            transition != Transition::MajorReform ==> final(self).reform_active == old(self).reform_active
                && final(self).reform_duration == old(self).reform_duration
                && final(self).reform_strength == old(self).reform_strength,
            final(self).last_protest_tick == old(self).last_protest_tick,
            final(self).last_reform_tick == old(self).last_reform_tick,
            final(self).last_crisis_tick == old(self).last_crisis_tick,
            final(self).protest_history@ == old(self).protest_history@,
    {
        match transition {
            Transition::Collapse => {
                self.hardship_duration = self.hardship_duration / 3;
            },
            Transition::MajorReform => {
                self.start_reform(MAJOR_REFORM_DURATION, strength);
                self.hardship_duration = self.hardship_duration / 2;
            },
            Transition::Polarization => {
                self.hardship_duration = self.hardship_duration / 2;
            },
        }
    }
}

/// A cooldown runs out: once `cooldown_ticks` ticks have passed since the
/// last event, the kind is free again, and it stays free as time goes on;
/// before that, it is cooling down.
pub proof fn lemma_cooldown_expires(last: u64, tick: u64, later: u64, cooldown_ticks: u64)
    requires
        last <= tick <= later,
    ensures
        tick - last < cooldown_ticks ==> spec_on_cooldown(Some(last), tick, cooldown_ticks),
        tick - last >= cooldown_ticks ==> !spec_on_cooldown(Some(last), tick, cooldown_ticks)
            && !spec_on_cooldown(Some(last), later, cooldown_ticks),
{
}

/// An event that has just happened is cooling down in the same tick for any
/// positive cooldown; in particular a protest this tick keeps an uprising
/// from starting in the same tick, and a crisis at tick 0 blocks another at
/// tick 1.
pub proof fn lemma_event_starts_cooldown(tick: u64, later: u64, cooldown_ticks: u64)
    requires
        tick <= later,
        later - tick < cooldown_ticks,
    ensures
        spec_on_cooldown(Some(tick), later, cooldown_ticks),
{
}

/// A round of protest checks appends exactly one entry to a full protest
/// window and keeps it full; the entry says whether a protest happened.
pub proof fn lemma_protest_round_keeps_window(history: Seq<bool>, happened: bool)
    requires
        history.len() == PROTEST_WINDOW,
    ensures
        bounded_push(history, happened, PROTEST_WINDOW as nat).len() == PROTEST_WINDOW,
        bounded_push(history, happened, PROTEST_WINDOW as nat).last() == happened,
        bounded_push(history, happened, PROTEST_WINDOW as nat) == history.drop_first().push(happened),
{
    assert(history.push(happened).drop_first() =~= history.drop_first().push(happened));
}

} // verus!
