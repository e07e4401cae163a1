//! The consumer of the block stream as a state machine.
//!
//! The consumer listens until a receive attempt finds the channel closed.
//! Whoever owns the channel makes the receive attempts, hands each outcome
//! to [`ConsumerState::step`] as an [`Event`], and carries out the
//! [`Action`] that comes back.

use crate::message::{BlockMessage, BlockMessageView};
use crate::record::{record_of, summarize, LogRecord, LogRecordView};
use vstd::prelude::*;

verus! {

/// The two states of the consumer.
#[derive(Clone, Copy, Debug, PartialEq, Eq)]
pub enum ConsumerState {
    /// Waiting for the next message.
    Listening,
    /// The channel was found closed; nothing more is received.
    Terminated,
}

/// What a receive attempt on the channel observed.
#[derive(Debug, PartialEq, Eq)]
pub enum Event {
    /// A message arrived.
    Message(BlockMessage),
    /// The channel is closed.
    Closed,
}

/// The mathematical content of an [`Event`].
pub enum EventView {
    Message(BlockMessageView),
    Closed,
}

impl View for Event {
    type V = EventView;

    open spec fn view(&self) -> EventView {
        match self {
            Event::Message(message) => EventView::Message(message@),
            Event::Closed => EventView::Closed,
        }
    }
}

/// What the consumer asks for in answer to an event.
#[derive(Debug, PartialEq, Eq)]
pub enum Action {
    /// Log this record, then receive again.
    Emit(LogRecord),
    /// Log nothing and receive no more.
    Stop,
}

/// The mathematical content of an [`Action`].
pub enum ActionView {
    Emit(LogRecordView),
    Stop,
}

impl View for Action {
    type V = ActionView;

    open spec fn view(&self) -> ActionView {
        match self {
            Action::Emit(record) => ActionView::Emit(record@),
            Action::Stop => ActionView::Stop,
        }
    }
}

impl ConsumerState {
    /// The state after `event`: a listening consumer goes on listening
    /// after a message and terminates on closure; a terminated one stays
    /// terminated.
    pub open spec fn next(self, event: EventView) -> ConsumerState {
        match (self, event) {
            (ConsumerState::Listening, EventView::Message(_)) => ConsumerState::Listening,
            _ => ConsumerState::Terminated,
        }
    }

    /// The action on `event`: a listening consumer emits the record of a
    /// message; in every other case nothing is emitted.
    pub open spec fn action(self, event: EventView) -> ActionView {
        match (self, event) {
            (ConsumerState::Listening, EventView::Message(message)) => ActionView::Emit(
                record_of(message),
            ),
            _ => ActionView::Stop,
        }
    }

    /// The state in which a consumer starts.
    pub fn new() -> (state: ConsumerState)
        ensures
            state == ConsumerState::Listening,
    {
        ConsumerState::Listening
    }

    /// Takes one event: returns the next state and what to do. The event is
    /// only read.
    pub fn step(self, event: &Event) -> (out: (ConsumerState, Action))
        ensures
            out.0 == self.next(event@),
            out.1@ == self.action(event@),
    {
        match self {
            ConsumerState::Listening => match event {
                Event::Message(message) => (ConsumerState::Listening, Action::Emit(summarize(message))),
                Event::Closed => (ConsumerState::Terminated, Action::Stop),
            },
            ConsumerState::Terminated => (ConsumerState::Terminated, Action::Stop),
        }
    }
}

/// The state of a consumer that started in `state` and took `events` in
/// order.
pub open spec fn run(state: ConsumerState, events: Seq<EventView>) -> ConsumerState
    decreases events.len(),
{
    if events.len() == 0 {
        state
    } else {
        run(state, events.drop_last()).next(events.last())
    }
}

/// The records that a consumer emitted, in order, which started in `state`
/// and took `events` in order.
pub open spec fn emitted(state: ConsumerState, events: Seq<EventView>) -> Seq<LogRecordView>
    decreases events.len(),
{
    if events.len() == 0 {
        Seq::empty()
    } else {
        let earlier = emitted(state, events.drop_last());
        match run(state, events.drop_last()).action(events.last()) {
            ActionView::Emit(record) => earlier.push(record),
            ActionView::Stop => earlier,
        }
    }
}

/// The events of receiving `messages` one after the other.
pub open spec fn arrivals(messages: Seq<BlockMessageView>) -> Seq<EventView> {
    messages.map_values(|message: BlockMessageView| EventView::Message(message))
}

/// The records of `messages`, one for each, in the same order.
pub open spec fn records(messages: Seq<BlockMessageView>) -> Seq<LogRecordView> {
    messages.map_values(|message: BlockMessageView| record_of(message))
}

/// A listening consumer that receives any sequence of messages emits
/// exactly one record for each message, in the order received, and goes on
/// listening.
pub proof fn lemma_one_record_per_message(messages: Seq<BlockMessageView>)
    ensures
        emitted(ConsumerState::Listening, arrivals(messages)) == records(messages),
        emitted(ConsumerState::Listening, arrivals(messages)).len() == messages.len(),
        run(ConsumerState::Listening, arrivals(messages)) == ConsumerState::Listening,
    decreases messages.len(),
{
    if messages.len() > 0 {
        lemma_one_record_per_message(messages.drop_last());
        assert(arrivals(messages).drop_last() =~= arrivals(messages.drop_last()));
        assert(records(messages) =~= records(messages.drop_last()).push(
            record_of(messages.last()),
        ));
    } else {
        assert(records(messages) =~= Seq::<LogRecordView>::empty());
    }
}

/// When the channel is closed after any number of messages, the consumer
/// has emitted exactly one record for each of them, in order, emits
/// nothing for the closure, and is terminated.
pub proof fn lemma_closure_terminates(messages: Seq<BlockMessageView>)
    ensures
        emitted(ConsumerState::Listening, arrivals(messages).push(EventView::Closed)) == records(
            messages,
        ),
        emitted(ConsumerState::Listening, arrivals(messages).push(EventView::Closed)).len()
            == messages.len(),
        run(ConsumerState::Listening, arrivals(messages).push(EventView::Closed))
            == ConsumerState::Terminated,
{
    let events = arrivals(messages).push(EventView::Closed);
    lemma_one_record_per_message(messages);
    assert(events.drop_last() =~= arrivals(messages));
}

/// A terminated consumer stays terminated and emits nothing, whatever
/// events it is handed.
pub proof fn lemma_terminated_is_final(events: Seq<EventView>)
    ensures
        run(ConsumerState::Terminated, events) == ConsumerState::Terminated,
        emitted(ConsumerState::Terminated, events) == Seq::<LogRecordView>::empty(),
    decreases events.len(),
{
    if events.len() > 0 {
        lemma_terminated_is_final(events.drop_last());
    }
}

/// A consumer that started listening is terminated exactly when one of the
/// events it took was the closure of the channel.
pub proof fn lemma_terminated_only_by_closure(events: Seq<EventView>)
    ensures
        run(ConsumerState::Listening, events) == ConsumerState::Terminated <==> exists|i: int|
            0 <= i < events.len() && events[i] == EventView::Closed,
    decreases events.len(),
{
    if events.len() > 0 {
        let earlier = events.drop_last();
        lemma_terminated_only_by_closure(earlier);
        if run(ConsumerState::Listening, events) == ConsumerState::Terminated {
            if run(ConsumerState::Listening, earlier) == ConsumerState::Terminated {
                let i = choose|i: int| 0 <= i < earlier.len() && earlier[i] == EventView::Closed;
                assert(events[i] == EventView::Closed);
            } else {
                assert(events[events.len() - 1] == EventView::Closed);
            }
        }
        if exists|i: int| 0 <= i < events.len() && events[i] == EventView::Closed {
            let i = choose|i: int| 0 <= i < events.len() && events[i] == EventView::Closed;
            if i < earlier.len() {
                assert(earlier[i] == EventView::Closed);
            }
        }
    }
}

} // verus!
