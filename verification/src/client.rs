//! The protocol front-end: the lifecycle state and the outbound sequence
//! counter of one connection.

use vstd::prelude::*;
use crate::lifecycle::State;
use crate::messages::{Event, ExtendedMessageKind, ExtendedProtocolMessage, Outgoing};

verus! {

/// The front-end of one connection. Reading and writing the byte stream is
/// left to the caller: the front-end decides which sequence number an emission
/// gets and which lifecycle transitions are taken.
#[derive(Debug)]
pub struct Client {
    /// The lifecycle state of the adapter.
    pub state: State,
    /// The sequence number of the next emission.
    pub send_seq: i64,
}

impl Client {
    /// A front-end that has emitted nothing and has not been initialized.
    #[must_use]
    pub fn new() -> (client: Client)
        ensures
            client == Client::fresh(),
    {
        Client { state: State::Uninitialized, send_seq: 0 }
    }

    /// The front-end of a connection on which nothing has happened yet.
    pub open spec fn fresh() -> Client {
        Client { state: State::Uninitialized, send_seq: 0 }
    }

    /// The envelope in which this front-end emits `body`.
    pub open spec fn stamped(self, body: Outgoing) -> ExtendedProtocolMessage {
        ExtendedProtocolMessage { seq: self.send_seq, message: body.kind() }
    }

    /// The front-end after one emission.
    pub open spec fn advanced(self) -> Client {
        Client { state: self.state, send_seq: (self.send_seq + 1) as i64 }
    }

    /// Whether `count` further emissions can be numbered.
    pub open spec fn can_send(self, count: int) -> bool {
        self.send_seq + count <= i64::MAX
    }

    /// Moves the lifecycle to `new_state` if that is the state directly after
    /// the current one; any other target is refused and changes nothing.
    pub fn set_state(&mut self, new_state: State)
        ensures
            final(self).send_seq == old(self).send_seq,
            final(self).state == old(self).state.advance(new_state),
            old(self).state.rank() <= final(self).state.rank(),
    {
        if self.state.precedes(new_state) {
            self.state = new_state;
        }
    }

    /// The lifecycle state.
    #[must_use]
    pub fn get_state(&self) -> (state: State)
        ensures
            state == self.state,
    {
        self.state
    }

    /// Walks the lifecycle forward, one legal step at a time, until it is
    /// shut down. A lifecycle that is already shut down or exited stays as
    /// it is.
    pub fn shut_down(&mut self)
        ensures
            final(self).send_seq == old(self).send_seq,
            final(self).state == old(self).state.halted(),
            old(self).state.rank() <= final(self).state.rank(),
    {
        while self.state.is_live()
            invariant
                self.send_seq == old(self).send_seq,
                old(self).state.rank() <= self.state.rank(),
                old(self).state.rank() < State::ShutDown.rank() ==> self.state.rank()
                    <= State::ShutDown.rank(),
                old(self).state.rank() >= State::ShutDown.rank() ==> self.state == old(self).state,
            decreases State::ShutDown.rank() - self.state.rank(),
        {
            match self.state.successor() {
                Some(next) => { self.set_state(next); },
                None => {},
            }
        }
    }

    /// Numbers one emission: the envelope gets the current sequence number,
    /// and the counter moves on by one.
    pub fn send(&mut self, body: Outgoing) -> (envelope: ExtendedProtocolMessage)
        requires
            old(self).can_send(1),
        ensures
            envelope == old(self).stamped(body),
            *final(self) == old(self).advanced(),
    {
        let message = match body {
            Outgoing::Event(event_body) => ExtendedMessageKind::Event(
                Event { body: Some(event_body) },
            ),
            Outgoing::Response(response) => ExtendedMessageKind::Response(response),
        };
        let envelope = ExtendedProtocolMessage { seq: self.send_seq, message };
        self.send_seq = self.send_seq + 1;
        envelope
    }
}

/// The first emission of a fresh front-end is numbered 0, and every emission
/// is numbered one above the emission before it.
pub proof fn lemma_sequence_numbers_are_consecutive(client: Client, first: Outgoing, second: Outgoing)
    ensures
        Client::fresh().stamped(first).seq == 0,
        client.can_send(2) ==> client.advanced().stamped(second).seq == client.stamped(first).seq
            + 1,
{
}

} // verus!
