//! The session store: one integer counter per client token.
//!
//! Each client is identified by an opaque token; its counter defaults to 0
//! while no entry exists. The store is the explicit form of the cookie-backed
//! session table the HTTP layer keeps: the routing layer looks the token up
//! and hands the store to the handler.

use std::collections::HashMap;
use vstd::prelude::*;

use crate::counter::{
    apply_counter_op, counter_step, op_delta, sum_of_ops, CounterOp,
};

verus! {

broadcast use vstd::std_specs::hash::group_hash_axioms;

/// The counter a client currently sees: its entry, or 0 while none exists.
pub open spec fn count_of(m: Map<u64, i32>, token: u64) -> i32 {
    if m.contains_key(token) {
        m[token]
    } else {
        0
    }
}

/// The store after one operation on one token's counter.
pub open spec fn store_after_op(m: Map<u64, i32>, token: u64, op: CounterOp) -> Map<u64, i32> {
    m.insert(token, counter_step(count_of(m, token), op))
}

/// The store after a sequence of operations, all on one token's counter,
/// applied in call order.
pub open spec fn store_after_ops(m: Map<u64, i32>, token: u64, ops: Seq<CounterOp>) -> Map<
    u64,
    i32,
>
    decreases ops.len(),
{
    if ops.len() == 0 {
        m
    } else {
        store_after_op(store_after_ops(m, token, ops.drop_last()), token, ops.last())
    }
}

/// A key/value store of session counters, keyed by client token.
pub struct SessionStore {
    counts: HashMap<u64, i32>,
}

impl View for SessionStore {
    type V = Map<u64, i32>;

    closed spec fn view(&self) -> Map<u64, i32> {
        self.counts@
    }
}

impl SessionStore {
    /// An empty store: every token still sees the default counter 0.
    pub fn new() -> (s: Self)
        ensures
            s@ == Map::<u64, i32>::empty(),
    {
        SessionStore { counts: HashMap::new() }
    }

    /// The counter of one token, defaulting to 0 when no entry exists.
    pub fn get_count(&self, token: u64) -> (r: i32)
        ensures
            r == count_of(self@, token),
    {
        match self.counts.get(&token) {
            Some(v) => *v,
            None => 0,
        }
    }

    /// Writes one token's counter back.
    pub fn set_count(&mut self, token: u64, value: i32)
        ensures
            final(self)@ == old(self)@.insert(token, value),
    {
        self.counts.insert(token, value);
    }

    /// Reads one token's counter, applies one operation, writes the result
    /// back, and returns the new counter.
    pub fn apply(&mut self, token: u64, op: CounterOp) -> (r: i32)
        ensures
            r == counter_step(count_of(old(self)@, token), op),
            final(self)@ == store_after_op(old(self)@, token, op),
    {
        let current = self.get_count(token);
        let updated = apply_counter_op(current, op);
        self.set_count(token, updated);
        updated
    }

    /// The increment endpoint's mutation: +1 on this token's counter.
    pub fn increment(&mut self, token: u64) -> (r: i32)
        ensures
            r == counter_step(count_of(old(self)@, token), CounterOp::Increment),
            final(self)@ == store_after_op(old(self)@, token, CounterOp::Increment),
    {
        self.apply(token, CounterOp::Increment)
    }

    /// The decrement endpoint's mutation: -1 on this token's counter.
    pub fn decrement(&mut self, token: u64) -> (r: i32)
        ensures
            r == counter_step(count_of(old(self)@, token), CounterOp::Decrement),
            final(self)@ == store_after_op(old(self)@, token, CounterOp::Decrement),
    {
        self.apply(token, CounterOp::Decrement)
    }
}

/// Law: starting from a fresh session (counter 0), a sequence of increment
/// and decrement operations on one token leaves that token's counter at the
/// algebraic sum of the steps, +1 or -1 each, applied in call order — as
/// long as every intermediate sum stays inside the `i32` range, so that the
/// wraparound policy never fires.
pub proof fn lemma_counter_is_sum_of_ops(m: Map<u64, i32>, token: u64, ops: Seq<CounterOp>)
    requires
        count_of(m, token) == 0,
        forall|i: int| 0 <= i <= ops.len() ==> i32::MIN <= sum_of_ops(#[trigger] ops.take(i))
            <= i32::MAX,
    ensures
        count_of(store_after_ops(m, token, ops), token) == sum_of_ops(ops),
    decreases ops.len(),
{
    if ops.len() == 0 {
        assert(store_after_ops(m, token, ops) == m);
    } else {
        let pre = ops.drop_last();
        assert forall|i: int| 0 <= i <= pre.len() implies i32::MIN <= sum_of_ops(
            #[trigger] pre.take(i),
        ) <= i32::MAX by {
            assert(pre.take(i) =~= ops.take(i));
        }
        lemma_counter_is_sum_of_ops(m, token, pre);
        let before = store_after_ops(m, token, pre);
        assert(ops.take(pre.len() as int) =~= pre);
        assert(ops.take(ops.len() as int) =~= ops);
        assert(i32::MIN <= sum_of_ops(pre) <= i32::MAX);
        assert(i32::MIN <= sum_of_ops(ops) <= i32::MAX);
        assert(sum_of_ops(ops) == sum_of_ops(pre) + op_delta(ops.last()));
        assert(count_of(store_after_ops(m, token, ops), token) == counter_step(
            count_of(before, token),
            ops.last(),
        ));
    }
}

/// Law: two distinct tokens are isolated. A sequence of operations on one
/// token's counter never changes what any other token sees.
pub proof fn lemma_session_isolation(
    m: Map<u64, i32>,
    token: u64,
    other: u64,
    ops: Seq<CounterOp>,
)
    requires
        token != other,
    ensures
        count_of(store_after_ops(m, token, ops), other) == count_of(m, other),
    decreases ops.len(),
{
    if ops.len() > 0 {
        lemma_session_isolation(m, token, other, ops.drop_last());
    }
}

} // verus!
