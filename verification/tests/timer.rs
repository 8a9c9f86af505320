use session_counter::timer::{timer_event, KEEP_ALIVE_SECS};

#[test]
fn every_event_is_labelled_timer() {
    assert_eq!(timer_event(0).label, "timer");
    assert_eq!(timer_event(120).label, "timer");
}

#[test]
fn payload_is_the_elapsed_whole_seconds() {
    assert_eq!(timer_event(0).payload, "0");
    assert_eq!(timer_event(1).payload, "1");
    assert_eq!(timer_event(2).payload, "2");
    assert_eq!(timer_event(61).payload, "61");
}

#[test]
fn sampled_payloads_are_non_decreasing() {
    // Two samples of the stream, two seconds apart: the payloads read back
    // as integers that never go down.
    let first: i64 = timer_event(0).payload.parse().unwrap();
    let second: i64 = timer_event(2).payload.parse().unwrap();
    assert!(first <= second);
    assert!(second >= 2);
}

#[test]
fn keep_alive_is_about_a_year() {
    assert_eq!(KEEP_ALIVE_SECS, 365 * 24 * 60 * 60);
}
