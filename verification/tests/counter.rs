use session_counter::counter::{apply_counter_op, decrement, increment, CounterOp};

#[test]
fn increment_adds_one() {
    assert_eq!(increment(0), 1);
    assert_eq!(increment(41), 42);
    assert_eq!(increment(-1), 0);
}

#[test]
fn decrement_subtracts_one() {
    assert_eq!(decrement(1), 0);
    assert_eq!(decrement(0), -1);
    assert_eq!(decrement(-41), -42);
}

#[test]
fn increment_wraps_at_max() {
    assert_eq!(increment(i32::MAX), i32::MIN);
}

#[test]
fn decrement_wraps_at_min() {
    assert_eq!(decrement(i32::MIN), i32::MAX);
}

#[test]
fn apply_op_matches_the_two_endpoints() {
    assert_eq!(apply_counter_op(7, CounterOp::Increment), increment(7));
    assert_eq!(apply_counter_op(7, CounterOp::Decrement), decrement(7));
}
