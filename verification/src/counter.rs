//! The session counter and its two mutations.
//!
//! The counter is a plain `i32`. Increment and decrement wrap around at the
//! ends of the `i32` range (two's-complement wraparound), the overflow policy
//! chosen for this service.

use vstd::prelude::*;

verus! {

/// One mutation of a session counter: add one or subtract one.
#[derive(Clone, Copy, PartialEq, Eq, Structural, Debug)]
pub enum CounterOp {
    Increment,
    Decrement,
}

/// What one operation does to a counter value: +1 or -1, wrapping at the
/// ends of the `i32` range.
pub open spec fn counter_step(count: i32, op: CounterOp) -> i32 {
    match op {
        CounterOp::Increment => if count == i32::MAX {
            i32::MIN
        } else {
            (count + 1) as i32
        },
        CounterOp::Decrement => if count == i32::MIN {
            i32::MAX
        } else {
            (count - 1) as i32
        },
    }
}

/// The algebraic contribution of one operation: +1 or -1.
pub open spec fn op_delta(op: CounterOp) -> int {
    match op {
        CounterOp::Increment => 1,
        CounterOp::Decrement => -1,
    }
}

/// The algebraic sum of a sequence of operations, each counted as +1 or -1.
pub open spec fn sum_of_ops(ops: Seq<CounterOp>) -> int
    decreases ops.len(),
{
    if ops.len() == 0 {
        0
    } else {
        sum_of_ops(ops.drop_last()) + op_delta(ops.last())
    }
}

/// The counter after one increment.
pub fn increment(count: i32) -> (r: i32)
    ensures
        r == counter_step(count, CounterOp::Increment),
{
    if count == i32::MAX {
        i32::MIN
    } else {
        count + 1
    }
}

/// The counter after one decrement. There is no floor at zero: the value
/// may go negative.
pub fn decrement(count: i32) -> (r: i32)
    ensures
        r == counter_step(count, CounterOp::Decrement),
{
    if count == i32::MIN {
        i32::MAX
    } else {
        count - 1
    }
}

/// The counter after one operation.
pub fn apply_counter_op(count: i32, op: CounterOp) -> (r: i32)
    ensures
        r == counter_step(count, op),
{
    match op {
        CounterOp::Increment => increment(count),
        CounterOp::Decrement => decrement(count),
    }
}

} // verus!
