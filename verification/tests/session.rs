use session_counter::counter::CounterOp;
use session_counter::decimal::i32_to_decimal;
use session_counter::session::SessionStore;

#[test]
fn fresh_session_sees_zero() {
    let store = SessionStore::new();
    assert_eq!(store.get_count(1), 0);
}

#[test]
fn first_increment_returns_one_then_decrement_returns_zero() {
    let mut store = SessionStore::new();
    let up = store.increment(5);
    assert_eq!(i32_to_decimal(up), "1");
    let down = store.decrement(5);
    assert_eq!(i32_to_decimal(down), "0");
}

#[test]
fn first_decrement_returns_minus_one() {
    let mut store = SessionStore::new();
    let down = store.decrement(9);
    assert_eq!(down, -1);
    assert_eq!(i32_to_decimal(down), "-1");
}

#[test]
fn counter_is_the_sum_of_the_ops_applied_in_order() {
    let ops = [
        CounterOp::Increment,
        CounterOp::Increment,
        CounterOp::Decrement,
        CounterOp::Increment,
        CounterOp::Decrement,
        CounterOp::Increment,
    ];
    let mut store = SessionStore::new();
    let mut last = 0;
    let mut sum = 0;
    for op in ops {
        last = store.apply(77, op);
        sum += match op {
            CounterOp::Increment => 1,
            CounterOp::Decrement => -1,
        };
    }
    assert_eq!(last, sum);
    assert_eq!(store.get_count(77), sum);
}

#[test]
fn two_tokens_never_observe_each_other() {
    let mut store = SessionStore::new();
    store.increment(1);
    store.increment(1);
    store.decrement(2);
    assert_eq!(store.get_count(1), 2);
    assert_eq!(store.get_count(2), -1);
    assert_eq!(store.get_count(3), 0);
}

#[test]
fn set_count_overwrites() {
    let mut store = SessionStore::new();
    store.set_count(4, 10);
    assert_eq!(store.get_count(4), 10);
    store.set_count(4, -2);
    assert_eq!(store.get_count(4), -2);
}
