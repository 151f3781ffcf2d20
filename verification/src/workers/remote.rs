//! The remote-button worker: turns a press of the button on an input pin into
//! one write per garage door in the store.
//!
//! The pin reads low while the button is held. The worker acts only while the
//! store is known to be connected, and acts once per press: after the writes
//! of a press it waits for the pin to read high again before it accepts the
//! next press.

use crate::database::find;
use crate::database::judged;
use crate::database::lemma_find_everything;
use crate::database::selected;
use crate::database::FailurePolicy;
use crate::database::Query;
use crate::database::WriteBatch;
use crate::database::WriteBatchView;
use crate::events::drained;
use crate::events::oldest;
use crate::events::EventEmitter;
use crate::events::Receiver;
use crate::schema::Entity;
use crate::schema::EntityView;
use crate::schema::Field;
use crate::schema::ValueView;
use vstd::prelude::*;
use vstd::string::*;

verus! {

/// The receiving ends that this worker listens on. They are connected once,
/// before the first tick.
pub struct Receivers {
    /// Whether the store is connected, as published by the worker that owns
    /// the connection.
    pub db_connection_status: Option<Receiver<bool>>,
}

/// What the worker remembers between ticks.
pub struct State {
    /// The last connection status received; `false` before any was received.
    pub connected: bool,
    /// Whether the writes of the current press have been issued.
    pub write_complete: bool,
}

/// The remote-button worker.
pub struct Worker {
    pub receivers: Receivers,
    is_db_connected: bool,
    write_complete: bool,
}

/// What one unit of work asks of the caller.
#[derive(Debug, Clone, PartialEq, Eq)]
pub enum Poll {
    /// Nothing to do in this tick.
    Idle,
    /// The button was pressed: run this query and hand the answer to
    /// [`Worker::complete_press`].
    Pressed(Query),
}

/// The type of the entities that a press acts on.
pub open spec fn door_type() -> Seq<char> {
    "GarageDoor"@
}

/// The field that a press writes.
pub open spec fn trigger_field() -> Seq<char> {
    "OpenTrigger"@
}

/// The state after the pin was sampled, and whether that sample counts as a
/// new press.
pub open spec fn polled(state: State, pin_high: bool) -> (State, bool) {
    if !state.connected {
        (state, false)
    } else if pin_high {
        (State { connected: true, write_complete: false }, false)
    } else {
        (state, !state.write_complete)
    }
}

/// The state after `ticks` samples in a row that all read low.
pub open spec fn held_low(state: State, ticks: nat) -> State
    decreases ticks,
{
    if ticks == 0 {
        state
    } else {
        polled(held_low(state, (ticks - 1) as nat), false).0
    }
}

/// The write that a press issues for one door: the trigger field of that
/// door set to zero, best-effort.
pub open spec fn trigger_write(door: EntityView) -> WriteBatchView {
    WriteBatchView {
        fields: seq![door.field(trigger_field()).with_value(ValueView::Integer(0))],
        on_failure: FailurePolicy::Discard,
    }
}

impl Worker {
    /// The receiving ends that the worker listens on.
    pub closed spec fn wiring(&self) -> Receivers {
        self.receivers
    }

    /// What the worker remembers.
    pub closed spec fn state(&self) -> State {
        State { connected: self.is_db_connected, write_complete: self.write_complete }
    }

    /// A worker that listens on nothing yet, takes the store for disconnected
    /// and has seen no press.
    pub fn new() -> (worker: Self)
        ensures
            worker.wiring().db_connection_status is None,
            worker.state() == (State { connected: false, write_complete: false }),
    {
        Worker {
            receivers: Receivers { db_connection_status: None },
            is_db_connected: false,
            write_complete: false,
        }
    }

    /// Connects the worker to the receiver that it is to take the connection
    /// status from, in place of the one it had.
    pub fn listen(&mut self, receiver: Receiver<bool>)
        ensures
            final(self).wiring().db_connection_status == Some(receiver),
            final(self).state() == old(self).state(),
    {
        self.receivers.db_connection_status = Some(receiver);
    }

    /// Takes at most one connection status from `source`, the emitter that
    /// the receiver of this worker was subscribed to, and remembers it. A
    /// worker without a receiver does nothing.
    pub fn process_events(&mut self, source: &mut EventEmitter<bool>)
        ensures
            final(self).wiring() == old(self).wiring(),
            final(self).state().write_complete == old(self).state().write_complete,
            match old(self).wiring().db_connection_status {
                None => {
                    &&& final(source)@ == old(source)@
                    &&& final(self).state().connected == old(self).state().connected
                },
                Some(receiver) => {
                    &&& final(source)@ == drained(old(source)@, receiver.slot())
                    &&& final(self).state().connected == match oldest(
                        old(source)@,
                        receiver.slot(),
                    ) {
                        Some(status) => status,
                        None => old(self).state().connected,
                    }
                },
            },
    {
        if let Some(receiver) = &self.receivers.db_connection_status {
            if let Some(status) = receiver.try_receive(source) {
                self.is_db_connected = status;
            }
        }
    }

    /// Decides, from one sample of the pin, whether a press begins.
    ///
    /// While the store is disconnected nothing happens. A high sample re-arms
    /// the worker. A low sample is a press unless the writes of this press
    /// were issued already.
    pub fn do_work(&mut self, pin_high: bool) -> (poll: Poll)
        ensures
            final(self).wiring() == old(self).wiring(),
            final(self).state() == polled(old(self).state(), pin_high).0,
            match poll {
                Poll::Idle => !polled(old(self).state(), pin_high).1,
                Poll::Pressed(query) => {
                    &&& polled(old(self).state(), pin_high).1
                    &&& query.entity_type@ == door_type()
                    &&& query.filters@.len() == 0
                },
            },
    {
        if !self.is_db_connected {
            return Poll::Idle;
        }
        if pin_high {
            self.write_complete = false;
            return Poll::Idle;
        }
        if self.write_complete {
            return Poll::Idle;
        }
        Poll::Pressed(Query { entity_type: String::from_str("GarageDoor"), filters: Vec::new() })
    }

    /// Finishes a press with the store's answer to its query.
    ///
    /// An error of the store is passed on and the press stays open, so the
    /// next low sample tries again. Otherwise the press is marked as done and
    /// one write per door is returned, in the order of the doors.
    pub fn complete_press<E>(&mut self, fetched: Result<Vec<Entity>, E>) -> (writes: Result<
        Vec<WriteBatch>,
        E,
    >)
        ensures
            final(self).wiring() == old(self).wiring(),
            match fetched {
                Err(error) => {
                    &&& writes == Err::<Vec<WriteBatch>, E>(error)
                    &&& final(self).state() == old(self).state()
                },
                Ok(doors) => {
                    &&& final(self).state() == (State {
                        connected: old(self).state().connected,
                        write_complete: true,
                    })
                    &&& writes matches Ok(batches)
                    &&& batches@.len() == doors@.len()
                    &&& forall|i: int|
                        0 <= i < doors@.len() ==> (#[trigger] batches@[i])@ == trigger_write(
                            doors@[i]@,
                        )
                },
            },
    {
        let every_door = |door: &Entity| -> (keep: bool)
            ensures
                keep,
            { true };
        let found = find(fetched, every_door);
        match found {
            Err(error) => Err(error),
            Ok(doors) => {
                proof {
                    let verdicts = choose|verdicts: Seq<bool>|
                        judged(every_door, fetched->Ok_0@, verdicts) && doors@ == selected(
                            fetched->Ok_0@,
                            verdicts,
                        );
                    lemma_find_everything(fetched->Ok_0@, verdicts);
                }
                let mut batches: Vec<WriteBatch> = Vec::new();
                let mut i: usize = 0;
                while i < doors.len()
                    invariant
                        i <= doors@.len(),
                        batches@.len() == i,
                        forall|k: int|
                            0 <= k < i ==> (#[trigger] batches@[k])@ == trigger_write(doors@[k]@),
                    decreases doors@.len() - i,
                {
                    let field = doors[i].field("OpenTrigger").set_i64_value(0);
                    let mut fields: Vec<Field> = Vec::new();
                    fields.push(field);
                    let batch = WriteBatch { fields, on_failure: FailurePolicy::Discard };
                    assert(batch@.fields =~= trigger_write(doors@[i as int]@).fields);
                    batches.push(batch);
                    i += 1;
                }
                self.write_complete = true;
                Ok(batches)
            },
        }
    }
}

/// One press, one round of writes. Once the writes of a press were issued,
/// the worker stays as it is and asks for nothing, however many ticks the pin
/// goes on reading low; a disconnected worker never asks for anything; and
/// after a high sample the next low sample of a connected worker is a press
/// again.
pub proof fn lemma_one_press_per_hold(state: State, ticks: nat, pin_high: bool)
    ensures
        !state.connected ==> !polled(state, pin_high).1,
        pin_high ==> !polled(state, pin_high).1,
        state.connected && state.write_complete ==> held_low(state, ticks) == state && !polled(
            held_low(state, ticks),
            false,
        ).1,
        state.connected ==> polled(polled(state, true).0, false).1,
    decreases ticks,
{
    if ticks > 0 {
        lemma_one_press_per_hold(state, (ticks - 1) as nat, pin_high);
    }
}

} // verus!
