//! A one-producer, many-consumer, non-blocking notification channel.
//!
//! An [`EventEmitter`] keeps one unbounded queue for every [`Receiver`] it has
//! handed out. Emitting appends a copy of the value to each of those queues;
//! receiving pops the oldest value of one queue and never waits. A receiver
//! starts with an empty queue, so it sees only what is emitted after it was
//! created.

use std::collections::VecDeque;
use std::marker::PhantomData;
use vstd::prelude::*;

verus! {

/// The producing end. Its view is the sequence of queues, one for each
/// receiver in the order of subscription, each queue oldest value first.
pub struct EventEmitter<T> {
    queues: Vec<VecDeque<T>>,
}

/// One consumer's handle on its queue inside the emitter that issued it.
pub struct Receiver<T> {
    slot: usize,
    payload: PhantomData<T>,
}

/// The queues after `value` was emitted: every queue has it as its newest
/// entry.
pub open spec fn emitted<T>(queues: Seq<Seq<T>>, value: T) -> Seq<Seq<T>> {
    Seq::new(queues.len(), |slot: int| queues[slot].push(value))
}

/// The queues after one more receiver subscribed: a new, empty queue at the
/// end.
pub open spec fn subscribed<T>(queues: Seq<Seq<T>>) -> Seq<Seq<T>> {
    queues.push(Seq::empty())
}

/// The oldest value waiting in queue `slot`, if there is such a queue and it
/// holds anything.
pub open spec fn oldest<T>(queues: Seq<Seq<T>>, slot: int) -> Option<T> {
    if 0 <= slot < queues.len() && queues[slot].len() > 0 {
        Some(queues[slot][0])
    } else {
        None
    }
}

/// The queues after queue `slot` gave up its oldest value, if it had one.
pub open spec fn drained<T>(queues: Seq<Seq<T>>, slot: int) -> Seq<Seq<T>> {
    if oldest(queues, slot) is Some {
        queues.update(slot, queues[slot].drop_first())
    } else {
        queues
    }
}

impl<T> View for EventEmitter<T> {
    type V = Seq<Seq<T>>;

    closed spec fn view(&self) -> Seq<Seq<T>> {
        Seq::new(self.queues@.len(), |slot: int| self.queues@[slot]@)
    }
}

impl<T> EventEmitter<T> {
    /// An emitter without receivers.
    pub fn new() -> (emitter: Self)
        ensures
            emitter@ == Seq::<Seq<T>>::empty(),
    {
        EventEmitter { queues: Vec::new() }
    }

    /// The number of receivers handed out so far.
    pub fn receiver_count(&self) -> (count: usize)
        ensures
            count == self@.len(),
    {
        self.queues.len()
    }

    /// Registers a new receiver. Its queue is empty: nothing emitted before
    /// this call will reach it.
    pub fn subscribe(&mut self) -> (receiver: Receiver<T>)
        ensures
            final(self)@ == subscribed(old(self)@),
            receiver.slot() == old(self)@.len(),
    {
        let slot = self.queues.len();
        self.queues.push(VecDeque::new());
        Receiver { slot, payload: PhantomData }
    }

    /// Appends a copy of `value` to the queue of every receiver. With no
    /// receivers the value is dropped.
    pub fn emit(&mut self, value: T)
        where T: Copy
        ensures
            final(self)@ == emitted(old(self)@, value),
    {
        let count = self.queues.len();
        let mut slot: usize = 0;
        while slot < count
            invariant
                slot <= count,
                count == self.queues@.len(),
                count == old(self).queues@.len(),
                forall|k: int|
                    0 <= k < slot ==> self.queues@[k]@ == old(self).queues@[k]@.push(value),
                forall|k: int| slot <= k < count ==> self.queues@[k]@ == old(self).queues@[k]@,
            decreases count - slot,
        {
            self.queues[slot].push_back(value);
            slot += 1;
        }
    }
}

impl<T> Receiver<T> {
    /// The position of this receiver's queue in the view of its emitter.
    pub closed spec fn slot(&self) -> int {
        self.slot as int
    }

    /// Pops the oldest value waiting for this receiver, without waiting for
    /// one. `emitter` is the emitter that issued the receiver; with any other
    /// emitter, a queue at the same position is read, and `None` is returned
    /// where there is none.
    pub fn try_receive(&self, emitter: &mut EventEmitter<T>) -> (value: Option<T>)
        ensures
            value == oldest(old(emitter)@, self.slot()),
            final(emitter)@ == drained(old(emitter)@, self.slot()),
    {
        if self.slot >= emitter.queues.len() {
            return None;
        }
        let value = emitter.queues[self.slot].pop_front();
        value
    }

    /// The number of values waiting for this receiver.
    pub fn pending(&self, emitter: &EventEmitter<T>) -> (count: usize)
        ensures
            0 <= self.slot() < emitter@.len() ==> count == emitter@[self.slot()].len(),
            !(0 <= self.slot() < emitter@.len()) ==> count == 0,
    {
        if self.slot >= emitter.queues.len() {
            return 0;
        }
        emitter.queues[self.slot].len()
    }
}

/// No replay. Whatever the queues held and whatever `earlier` was emitted, a
/// receiver that subscribes afterwards finds nothing waiting, also after any
/// other receiver has drained its own queue; and the first value it receives
/// is the first one emitted after it subscribed.
pub proof fn lemma_no_replay<T>(queues: Seq<Seq<T>>, earlier: T, later: T, other: int)
    ensures
        ({
            let before = emitted(queues, earlier);
            let slot = before.len() as int;
            let after = subscribed(before);
            &&& oldest(after, slot) is None
            &&& other != slot ==> oldest(drained(after, other), slot) is None
            &&& oldest(emitted(after, later), slot) == Some(later)
        }),
{
}

/// Independent fan-out. One emission reaches the queue of every receiver, and
/// a receiver whose queue was empty receives exactly that value next. Draining
/// one receiver leaves the queue of every other receiver as it was.
pub proof fn lemma_independent_fan_out<T>(queues: Seq<Seq<T>>, value: T, one: int, another: int)
    requires
        0 <= one < queues.len(),
        0 <= another < queues.len(),
        one != another,
    ensures
        emitted(queues, value)[one] == queues[one].push(value),
        emitted(queues, value)[another] == queues[another].push(value),
        queues[one].len() == 0 ==> oldest(emitted(queues, value), one) == Some(value),
        drained(queues, one)[another] == queues[another],
        oldest(drained(queues, one), another) == oldest(queues, another),
        drained(emitted(queues, value), one)[another] == queues[another].push(value),
{
}

} // verus!
