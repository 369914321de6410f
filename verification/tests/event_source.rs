use task_tui::events::{events_of_round, EventSource, TICK_RATE_MILLIS};
use task_tui::events::{Event, Key};

#[test]
fn the_tick_rate_is_a_fifth_of_a_second() {
    assert_eq!(TICK_RATE_MILLIS, 200);
}

#[test]
fn the_wait_is_what_is_left_of_the_interval() {
    let source = EventSource::new(200, 1_000);
    assert_eq!(source.timeout(1_000), 200);
    assert_eq!(source.timeout(1_001), 199);
    assert_eq!(source.timeout(1_150), 50);
    assert_eq!(source.timeout(1_199), 1);
}

#[test]
fn there_is_no_wait_once_the_interval_has_passed() {
    let source = EventSource::new(200, 1_000);
    assert_eq!(source.timeout(1_200), 0);
    assert_eq!(source.timeout(5_000), 0);
    assert_eq!(source.timeout(u64::MAX), 0);
}

#[test]
fn a_clock_that_went_back_waits_a_whole_interval() {
    let source = EventSource::new(200, 1_000);
    assert_eq!(source.timeout(999), 200);
    assert_eq!(source.timeout(0), 200);
    assert!(!source.tick_due(0));
}

#[test]
fn a_tick_is_due_after_a_whole_interval() {
    let source = EventSource::new(200, 1_000);
    assert!(!source.tick_due(1_000));
    assert!(!source.tick_due(1_199));
    assert!(source.tick_due(1_200));
    assert!(source.tick_due(1_201));
}

#[test]
fn a_tick_is_due_when_the_wait_runs_out() {
    let source = EventSource::new(200, 1_000);
    for now in [1_000u64, 1_001, 1_100, 1_199, 1_200, 1_500] {
        assert!(source.tick_due(now + source.timeout(now)));
    }
}

#[test]
fn an_interval_of_nothing_is_always_due() {
    let source = EventSource::new(0, 1_000);
    assert_eq!(source.timeout(1_000), 0);
    assert!(source.tick_due(1_000));
}

#[test]
fn a_sent_tick_starts_the_interval_anew() {
    let mut source = EventSource::new(200, 1_000);
    source.tick_sent(1_234);
    assert_eq!(source, EventSource { tick_rate: 200, last_tick: 1_234 });
    assert_eq!(source.timeout(1_234), 200);
    assert!(!source.tick_due(1_433));
    assert!(source.tick_due(1_434));
}

#[test]
fn input_is_sent_before_the_tick() {
    assert_eq!(
        events_of_round(Some(Key::Char('a')), true),
        vec![Event::Input(Key::Char('a')), Event::Tick]
    );
    assert_eq!(events_of_round(Some(Key::Enter), false), vec![Event::Input(Key::Enter)]);
    assert_eq!(events_of_round::<Key>(None, true), vec![Event::Tick]);
    assert_eq!(events_of_round::<Key>(None, false), vec![]);
}
