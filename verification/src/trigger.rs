//! Hand-off of the newest input sample from its producer to the consumer.
//!
//! The buffer has one slot. A deposit overwrites whatever has not been
//! delivered yet, so the consumer sees only the most recent value and no
//! backlog builds up. A consumer that is woken by the deposit takes the
//! value out; one that runs on its own period reads it and leaves it in
//! place. The caller serializes producer and consumer and wakes the consumer
//! after a deposit.

use vstd::prelude::*;

verus! {

/// The slot after `value` is deposited: it holds `value`, whatever it held.
pub open spec fn after_deposit<T>(slot: Option<T>, value: T) -> Option<T> {
    Some(value)
}

/// The slot after every value of `values` is deposited, in order.
pub open spec fn after_deposits<T>(slot: Option<T>, values: Seq<T>) -> Option<T>
    decreases values.len(),
{
    if values.len() == 0 {
        slot
    } else {
        after_deposit(after_deposits(slot, values.drop_last()), values.last())
    }
}

/// Last value wins: after any burst of deposits the slot holds the last one
/// and nothing of the earlier ones or of what it held before.
pub proof fn lemma_last_value_wins<T>(slot: Option<T>, values: Seq<T>)
    requires
        values.len() > 0,
    ensures
        after_deposits(slot, values) == Some(values.last()),
{
}

/// Deposits that nobody consumed leave no trace once another follows.
pub proof fn lemma_earlier_deposits_vanish<T>(slot: Option<T>, earlier: Seq<T>, newest: T)
    ensures
        after_deposits(slot, earlier.push(newest)) == Some(newest),
        after_deposits(slot, earlier.push(newest)) == after_deposits(None, seq![newest]),
{
    assert(seq![newest].last() == newest);
    assert(earlier.push(newest).last() == newest);
}

/// Single-slot buffer between one producer and one consumer.
#[derive(Debug)]
pub struct TriggerSlot<T> {
    pending: Option<T>,
}

impl<T> View for TriggerSlot<T> {
    type V = Option<T>;

    closed spec fn view(&self) -> Option<T> {
        self.pending
    }
}

impl<T> TriggerSlot<T> {
    /// An empty slot.
    pub fn new() -> (slot: Self)
        ensures
            slot@ is None,
    {
        TriggerSlot { pending: None }
    }

    /// Whether a value waits for the consumer.
    pub fn is_triggered(&self) -> (triggered: bool)
        ensures
            triggered <==> self@ is Some,
    {
        self.pending.is_some()
    }

    /// Stores `value` for the consumer, in place of any value not yet
    /// delivered.
    pub fn deposit(&mut self, value: T)
        ensures
            final(self)@ == after_deposit(old(self)@, value),
            final(self)@ == Some(value),
    {
        self.pending = Some(value);
    }

    /// Hands the waiting value to the consumer and empties the slot. There
    /// is nothing to hand over if nothing was deposited since the last call.
    pub fn consume(&mut self) -> (value: Option<T>)
        ensures
            value == old(self)@,
            final(self)@ is None,
    {
        self.pending.take()
    }
}

impl<T: Copy> TriggerSlot<T> {
    /// The newest value, which stays in the slot. There is none if nothing
    /// was deposited since the slot was last emptied.
    pub fn latest(&self) -> (value: Option<T>)
        ensures
            value == self@,
    {
        self.pending
    }
}

} // verus!
