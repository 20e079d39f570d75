use democracy_simulator::government::{Government, POLICY_WINDOW, TERM_LENGTH};
use democracy_simulator::history::push_bounded;
use democracy_simulator::events::{
    kind_of, EconomicEvent, EventBook, EventKind, Transition, CRISIS_COOLDOWN, PROTEST_COOLDOWN,
    UPRISING_COOLDOWN,
};
use democracy_simulator::social::{
    count_protests, fatigue_level, protest_fatigue, reform_update, FatigueLevel, ReformUpdate,
    MAX_EVENTS, PROTEST_WINDOW,
};

#[test]
fn test_government_creation() {
    let gov = Government::new(0.2f32, 50);
    assert_eq!(gov.current_ideology, 0.2);
    assert_eq!(gov.term_remaining, 50);
    assert!(gov.policy_queue.len() <= 15);
}

#[test]
fn test_term_countdown() {
    let mut gov = Government::new(0.0f32, 5);
    assert_eq!(gov.term_remaining, 5);
    gov.update_term();
    assert_eq!(gov.term_remaining, 4);
    gov.update_term();
    assert_eq!(gov.term_remaining, 3);
}

#[test]
fn test_policy_queue() {
    let mut gov = Government::new(0.0f32, 50);
    for _ in 0..20 {
        gov.update_policy_queue();
    }
    assert_eq!(gov.policy_queue.len(), 15);
}

#[test]
fn new_government_has_full_queue_of_its_ideology() {
    let gov = Government::new(-0.4f32, 50);
    assert_eq!(gov.policy_queue, vec![-0.4f32; POLICY_WINDOW]);
    assert_eq!(gov.previous_ideology, -0.4);
    assert_eq!(gov.get_lagged_ideology(), -0.4);
    assert!(!gov.is_election_due());
}

#[test]
fn term_stops_at_zero_and_election_becomes_due() {
    let mut gov = Government::new(0i32, 2);
    gov.update_term();
    assert!(!gov.is_election_due());
    gov.update_term();
    assert!(gov.is_election_due());
    gov.update_term();
    assert_eq!(gov.term_remaining, 0);
    assert!(gov.is_election_due());
}

#[test]
fn election_installs_outcome_and_restarts_term() {
    let mut gov = Government::new(3i32, 0);
    assert!(gov.is_election_due());
    gov.conclude_election(7);
    assert_eq!(gov.previous_ideology, 3);
    assert_eq!(gov.current_ideology, 7);
    assert_eq!(gov.term_remaining, TERM_LENGTH);
    assert!(!gov.is_election_due());
    for _ in 0..TERM_LENGTH {
        assert!(!gov.is_election_due());
        gov.update_term();
    }
    assert!(gov.is_election_due());
}

#[test]
fn sixty_ticks_hold_one_election() {
    let mut gov = Government::new(0i32, TERM_LENGTH);
    let mut elections = 0;
    for tick in 0..60 {
        let outcome = if gov.is_election_due() {
            assert_eq!(tick, 50);
            elections += 1;
            Some(tick)
        } else {
            None
        };
        gov.end_tick(outcome);
        assert_eq!(gov.policy_queue.len(), POLICY_WINDOW);
        assert_eq!(*gov.policy_queue.last().unwrap(), gov.current_ideology);
    }
    assert_eq!(elections, 1);
    assert_eq!(gov.term_remaining, 40);
    assert_eq!(gov.current_ideology, 50);
    assert_eq!(gov.previous_ideology, 0);
}

#[test]
fn policy_lag_reads_ten_ticks_back() {
    // Integers stand for the ideology of successive governments.
    let mut gov = Government::new(0i32, 50);
    for t in 1..=30 {
        gov.current_ideology = t;
        gov.update_policy_queue();
        if t >= 10 {
            assert_eq!(gov.get_lagged_ideology(), t - 9);
        } else {
            assert_eq!(gov.get_lagged_ideology(), 0);
        }
    }
    assert_eq!(gov.policy_queue, (16..=30).collect::<Vec<i32>>());
}

#[test]
fn lagged_ideology_falls_back_to_current_on_short_queue() {
    let mut gov = Government::new(1i32, 50);
    gov.policy_queue = vec![5, 6, 7];
    gov.current_ideology = 9;
    assert_eq!(gov.get_lagged_ideology(), 9);
    gov.policy_queue = (0..10).collect();
    assert_eq!(gov.get_lagged_ideology(), 0);
}

#[test]
fn test_event_management() {
    let mut events: Vec<String> = Vec::new();
    push_bounded(&mut events, "Test Event".to_string(), MAX_EVENTS);
    assert_eq!(events.len(), 1);
    assert_eq!(events[0], "Test Event");
    for i in 0..150 {
        push_bounded(&mut events, format!("Event {}", i), MAX_EVENTS);
    }
    assert_eq!(events.len(), 100);
    assert!(!events[0].starts_with("Event 0"));
    assert_eq!(events[0], "Event 50");
    assert_eq!(events[99], "Event 149");
}

#[test]
fn bounded_history_keeps_most_recent_in_order() {
    let mut h: Vec<u32> = Vec::new();
    for i in 0..7u32 {
        push_bounded(&mut h, i, 3);
    }
    assert_eq!(h, vec![4, 5, 6]);
    let mut over: Vec<u32> = vec![1, 2, 3, 4, 5];
    push_bounded(&mut over, 6, 3);
    assert_eq!(over, vec![2, 3, 4, 5, 6]);
    let mut zero: Vec<u32> = Vec::new();
    push_bounded(&mut zero, 1, 0);
    assert!(zero.is_empty());
}

#[test]
fn test_protest_history() {
    let mut history = vec![false; PROTEST_WINDOW];
    assert_eq!(protest_fatigue(&history), FatigueLevel::Fresh);
    for _ in 0..3 {
        push_bounded(&mut history, true, PROTEST_WINDOW);
    }
    assert_eq!(protest_fatigue(&history), FatigueLevel::Fresh);
    for _ in 0..3 {
        push_bounded(&mut history, true, PROTEST_WINDOW);
    }
    assert_eq!(protest_fatigue(&history), FatigueLevel::Moderate);
    for _ in 0..6 {
        push_bounded(&mut history, true, PROTEST_WINDOW);
    }
    assert_eq!(protest_fatigue(&history), FatigueLevel::High);
    assert_eq!(history.len(), PROTEST_WINDOW);
}

#[test]
fn book_protest_fatigue() {
    let mut book: EventBook<f32> = EventBook::new(0.0);
    assert_eq!(book.protest_fatigue(), FatigueLevel::Fresh);
    for _ in 0..6 {
        book.update_protest_history(true);
    }
    assert_eq!(book.protest_fatigue(), FatigueLevel::Moderate);
}

#[test]
fn protest_counts_and_fatigue_levels() {
    assert_eq!(count_protests(&[]), 0);
    assert_eq!(count_protests(&[true, false, true, true]), 3);
    assert_eq!(fatigue_level(0), FatigueLevel::Fresh);
    assert_eq!(fatigue_level(5), FatigueLevel::Fresh);
    assert_eq!(fatigue_level(6), FatigueLevel::Moderate);
    assert_eq!(fatigue_level(10), FatigueLevel::Moderate);
    assert_eq!(fatigue_level(11), FatigueLevel::High);
    let mut history = vec![false; PROTEST_WINDOW];
    for _ in 0..11 {
        push_bounded(&mut history, true, PROTEST_WINDOW);
    }
    for _ in 0..20 {
        push_bounded(&mut history, false, PROTEST_WINDOW);
    }
    assert_eq!(protest_fatigue(&history), FatigueLevel::Fresh);
}

#[test]
fn test_event_cooldowns() {
    let mut book: EventBook<f32> = EventBook::new(0.0);
    let tick = 0u64;
    assert!(!book.is_event_on_cooldown("protest", tick, 20));
    book.last_protest_tick = Some(10);
    assert!(book.is_event_on_cooldown("protest", 15, 20));
    assert!(!book.is_event_on_cooldown("protest", 30, 20));
}

#[test]
fn cooldowns_by_kind() {
    assert_eq!(kind_of("protest"), Some(EventKind::Protest));
    assert_eq!(kind_of("reform"), Some(EventKind::Reform));
    assert_eq!(kind_of("crisis"), Some(EventKind::Crisis));
    assert_eq!(kind_of("election"), None);
    let mut book: EventBook<f32> = EventBook::new(0.0);
    book.last_crisis_tick = Some(20);
    book.last_reform_tick = Some(10);
    assert!(book.is_event_on_cooldown("crisis", 40, 30));
    assert!(!book.is_event_on_cooldown("crisis", 50, 30));
    assert!(book.is_event_on_cooldown("reform", 49, 40));
    assert!(!book.is_event_on_cooldown("reform", 50, 40));
    assert!(!book.on_cooldown(EventKind::Protest, 50, 40));
    // a name of no tracked kind counts as an event at tick 0
    assert!(book.is_event_on_cooldown("election", 5, 30));
    assert!(!book.is_event_on_cooldown("election", 30, 30));
}

#[test]
fn event_at_tick_zero_starts_a_cooldown() {
    let mut book: EventBook<f32> = EventBook::new(0.0);
    assert_eq!(book.economic_round(0, true, true), EconomicEvent::Crisis);
    assert_eq!(book.last_crisis_tick, Some(0));
    // the crisis at tick 0 blocks crises and booms for CRISIS_COOLDOWN ticks
    assert_eq!(book.economic_round(1, true, true), EconomicEvent::Calm);
    assert_eq!(book.economic_round(CRISIS_COOLDOWN - 1, false, true), EconomicEvent::Calm);
    assert_eq!(book.economic_round(CRISIS_COOLDOWN, false, true), EconomicEvent::Boom);
    assert_eq!(book.last_crisis_tick, Some(0));
    assert_eq!(book.economic_round(CRISIS_COOLDOWN, true, true), EconomicEvent::Crisis);
    assert_eq!(book.last_crisis_tick, Some(CRISIS_COOLDOWN));
    assert_eq!(book.economic_round(100, false, false), EconomicEvent::Calm);
}

#[test]
fn protest_rounds() {
    let mut book: EventBook<f32> = EventBook::new(0.0);
    assert!(!book.protest_gate(0, false, PROTEST_COOLDOWN));
    assert!(!book.protest_round(0, false, PROTEST_COOLDOWN, None));
    assert!(book.protest_gate(0, true, PROTEST_COOLDOWN));
    assert!(!book.protest_round(0, true, PROTEST_COOLDOWN, Some(false)));
    assert_eq!(book.last_protest_tick, None);
    assert!(book.protest_round(0, true, PROTEST_COOLDOWN, Some(true)));
    assert_eq!(book.last_protest_tick, Some(0));
    // the protest keeps an uprising from starting in the same tick
    assert!(!book.protest_gate(0, true, UPRISING_COOLDOWN));
    assert!(!book.protest_round(0, true, UPRISING_COOLDOWN, None));
    assert_eq!(book.protest_history.len(), PROTEST_WINDOW);
    assert_eq!(count_protests(&book.protest_history), 1);
    assert_eq!(*book.protest_history.last().unwrap(), false);
    assert!(!book.protest_gate(19, true, PROTEST_COOLDOWN));
    assert!(book.protest_gate(20, true, PROTEST_COOLDOWN));
    assert!(book.protest_gate(15, true, UPRISING_COOLDOWN));
}

#[test]
fn reform_rounds_and_transitions() {
    let mut book: EventBook<f32> = EventBook::new(0.0);
    assert!(!book.reform_round(0, false, 2.0));
    assert!(!book.reform_active);
    assert!(book.reform_round(3, true, 2.0));
    assert!(book.reform_active);
    assert_eq!(book.reform_duration, 30);
    assert_eq!(book.reform_strength, 2.0);
    assert_eq!(book.last_reform_tick, Some(3));
    assert!(!book.reform_round(42, true, 2.0));
    assert!(book.reform_round(43, true, 2.0));

    for _ in 0..151 {
        book.update_hardship(true);
    }
    assert!(book.transition_due());
    book.apply_transition(Transition::Collapse, 0.0);
    assert_eq!(book.hardship_duration, 50);
    book.update_hardship(false);
    assert_eq!(book.hardship_duration, 0);
    book.hardship_duration = 160;
    book.apply_transition(Transition::MajorReform, 3.0);
    assert_eq!(book.hardship_duration, 80);
    assert_eq!(book.reform_duration, 60);
    assert_eq!(book.reform_strength, 3.0);
    book.apply_transition(Transition::Polarization, 0.0);
    assert_eq!(book.hardship_duration, 40);
    assert_eq!(book.reform_strength, 3.0);
}

#[test]
fn test_reform_system() {
    let mut book: EventBook<f32> = EventBook::new(0.0);
    assert!(!book.reform_active);
    assert_eq!(book.reform_duration, 0);
    assert_eq!(book.reform_strength, 0.0);

    book.start_reform(30, 2.0);
    assert!(book.reform_active);
    assert_eq!(book.reform_duration, 30);
    assert_eq!(book.reform_strength, 2.0);

    let decayed = book.reform_strength * 0.98;
    book.update_reform(decayed, 0.0);
    assert_eq!(book.reform_duration, 29);
    assert!(book.reform_strength < 2.0);

    for _ in 0..30 {
        let decayed = book.reform_strength * 0.98;
        book.update_reform(decayed, 0.0);
    }
    assert!(!book.reform_active);
    assert_eq!(book.reform_duration, 0);
    assert_eq!(book.reform_strength, 0.0);
}

#[test]
fn reform_update_cases() {
    assert_eq!(reform_update(false, 5), ReformUpdate::Idle);
    assert_eq!(reform_update(true, 5), ReformUpdate::Continue { remaining: 4 });
    assert_eq!(reform_update(true, 1), ReformUpdate::Continue { remaining: 0 });
    assert_eq!(reform_update(true, 0), ReformUpdate::Expire);
}
