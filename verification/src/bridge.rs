//! The decisions of the byte pump between the pseudo-terminal and the rest
//! of the system. The worker that owns the descriptors waits for readiness,
//! does the read or the write, and reports what happened; the bridge says
//! what to do next and keeps the bytes that are still to be written.

use vstd::prelude::*;

verus! {

/// The most bytes that one read of the primary descriptor asks for.
pub const READ_CHUNK: usize = 65536;

/// How a read of the primary descriptor ended.
#[derive(Debug)]
pub enum ReadOutcome {
    /// These bytes were read.
    Data(Vec<u8>),
    /// Nothing could be read without blocking.
    WouldBlock,
    /// The primary side is at its end: nothing will be read from it again.
    Ended,
    /// The read failed for good.
    Failed,
}

/// How a write of the pending bytes to the primary descriptor ended.
#[derive(Clone, Copy, PartialEq, Eq, Structural, Debug)]
pub enum WriteOutcome {
    /// So many of the pending bytes were written, from the first one on.
    Written(usize),
    /// Nothing could be written without blocking.
    WouldBlock,
    /// The write failed for good.
    Failed,
}

/// What the worker reports.
#[derive(Debug)]
pub enum BridgeEvent {
    /// The primary descriptor was readable and has been read.
    PrimaryRead(ReadOutcome),
    /// The primary descriptor was writable and the pending bytes have been
    /// offered to it.
    PrimaryWritten(WriteOutcome),
    /// The inbound channel was readable and these bytes were drained from it.
    Inbound(Vec<u8>),
    /// The inbound channel was closed by its sender: what was submitted is
    /// still to be written, and nothing more will come.
    InboundClosed,
    /// The session is over at once: the child has exited or the owner lets
    /// go. Bytes that are still pending have no reader and are dropped.
    Shutdown,
}

/// What the worker is to do next.
#[derive(Debug)]
pub enum BridgeAction {
    /// Wait for the next readiness event.
    Wait,
    /// Push these bytes to the outbound channel.
    Forward(Vec<u8>),
    /// Ask to be told when the primary descriptor can be written.
    ArmWrite,
    /// Stop asking for that.
    DisarmWrite,
    /// Close the outbound channel, release the descriptors and stop.
    Close,
}

/// The state of the bridge: the bytes accepted from the inbound channel and
/// not yet written, whether write readiness is asked for, whether the
/// inbound channel is closed and the bridge only writes what is left, and
/// whether the bridge has been torn down.
pub struct BridgeState {
    pub pending: Seq<u8>,
    pub armed: bool,
    pub draining: bool,
    pub closed: bool,
}

impl BridgeState {
    pub open spec fn start() -> BridgeState {
        BridgeState { pending: Seq::empty(), armed: false, draining: false, closed: false }
    }

    /// Write readiness is asked for exactly while bytes are pending.
    pub open spec fn consistent(self) -> bool {
        self.armed <==> self.pending.len() > 0
    }

    /// The bytes that this event adds to the pending ones.
    pub open spec fn accepted(self, event: BridgeEvent) -> Seq<u8> {
        match event {
            BridgeEvent::Inbound(bytes) if !self.closed && !self.draining => bytes@,
            _ => Seq::empty(),
        }
    }

    /// The pending bytes that this event reports as written.
    pub open spec fn flushed(self, event: BridgeEvent) -> Seq<u8> {
        match event {
            BridgeEvent::PrimaryWritten(WriteOutcome::Written(count)) if !self.closed => {
                self.pending.take(
                    if count <= self.pending.len() {
                        count as int
                    } else {
                        self.pending.len() as int
                    },
                )
            },
            _ => Seq::empty(),
        }
    }

    /// Whether an event leaves the session running: it is no failure, no end
    /// of the primary side and no shutdown.
    pub open spec fn orderly(event: BridgeEvent) -> bool {
        match event {
            BridgeEvent::PrimaryRead(ReadOutcome::Failed) => false,
            BridgeEvent::PrimaryRead(ReadOutcome::Ended) => false,
            BridgeEvent::PrimaryWritten(WriteOutcome::Failed) => false,
            BridgeEvent::Shutdown => false,
            _ => true,
        }
    }

    /// The state after an event. A closed bridge stays as it is. A failed
    /// read or write, the end of the primary side, or a shutdown closes it
    /// at once, and what is pending then is dropped. A blocked read or write
    /// changes nothing. Written bytes leave the front of the queue, drained
    /// bytes join its end. Once the inbound channel is closed, nothing more
    /// is accepted, and the bridge closes when the queue is empty.
    pub open spec fn step(self, event: BridgeEvent) -> BridgeState {
        if self.closed {
            self
        } else {
            match event {
                BridgeEvent::PrimaryRead(ReadOutcome::Failed) => BridgeState {
                    closed: true,
                    ..self
                },
                BridgeEvent::PrimaryRead(ReadOutcome::Ended) => BridgeState {
                    closed: true,
                    ..self
                },
                BridgeEvent::PrimaryRead(_) => self,
                BridgeEvent::PrimaryWritten(WriteOutcome::Written(_)) => {
                    let rest = self.pending.skip(self.flushed(event).len() as int);
                    BridgeState {
                        pending: rest,
                        armed: rest.len() > 0,
                        closed: self.draining && rest.len() == 0,
                        ..self
                    }
                },
                BridgeEvent::PrimaryWritten(WriteOutcome::WouldBlock) => self,
                BridgeEvent::PrimaryWritten(WriteOutcome::Failed) => BridgeState {
                    closed: true,
                    ..self
                },
                BridgeEvent::Inbound(bytes) => {
                    if self.draining {
                        self
                    } else {
                        let queue = self.pending + bytes@;
                        BridgeState { pending: queue, armed: queue.len() > 0, ..self }
                    }
                },
                BridgeEvent::InboundClosed => BridgeState {
                    draining: true,
                    closed: self.pending.len() == 0,
                    ..self
                },
                BridgeEvent::Shutdown => BridgeState { closed: true, ..self },
            }
        }
    }

    /// What the worker is told after an event. Bytes that were read are
    /// forwarded as they are; write readiness is switched when the queue
    /// becomes empty or stops being empty; the worker is told to close
    /// exactly when the event closes the bridge.
    pub open spec fn reaction(self, event: BridgeEvent) -> BridgeAction {
        if self.closed {
            BridgeAction::Wait
        } else {
            match event {
                BridgeEvent::PrimaryRead(ReadOutcome::Data(bytes)) => BridgeAction::Forward(bytes),
                BridgeEvent::PrimaryRead(ReadOutcome::WouldBlock) => BridgeAction::Wait,
                BridgeEvent::PrimaryRead(ReadOutcome::Ended) => BridgeAction::Close,
                BridgeEvent::PrimaryRead(ReadOutcome::Failed) => BridgeAction::Close,
                BridgeEvent::PrimaryWritten(WriteOutcome::Written(_)) => {
                    if self.step(event).closed {
                        BridgeAction::Close
                    } else if self.armed && !self.step(event).armed {
                        BridgeAction::DisarmWrite
                    } else {
                        BridgeAction::Wait
                    }
                },
                BridgeEvent::PrimaryWritten(WriteOutcome::WouldBlock) => BridgeAction::Wait,
                BridgeEvent::PrimaryWritten(WriteOutcome::Failed) => BridgeAction::Close,
                BridgeEvent::Inbound(_) => {
                    if !self.draining && !self.armed && self.step(event).armed {
                        BridgeAction::ArmWrite
                    } else {
                        BridgeAction::Wait
                    }
                },
                BridgeEvent::InboundClosed => {
                    if self.step(event).closed {
                        BridgeAction::Close
                    } else {
                        BridgeAction::Wait
                    }
                },
                BridgeEvent::Shutdown => BridgeAction::Close,
            }
        }
    }

    /// The state after the events of `events`, first to last.
    pub open spec fn run(self, events: Seq<BridgeEvent>) -> BridgeState
        decreases events.len(),
    {
        if events.len() == 0 {
            self
        } else {
            self.step(events[0]).run(events.drop_first())
        }
    }

    /// All bytes that the events add to the queue, in the order of the events.
    pub open spec fn submitted(self, events: Seq<BridgeEvent>) -> Seq<u8>
        decreases events.len(),
    {
        if events.len() == 0 {
            Seq::empty()
        } else {
            self.accepted(events[0]) + self.step(events[0]).submitted(events.drop_first())
        }
    }

    /// All bytes that the events report as written, in the order of the events.
    pub open spec fn delivered(self, events: Seq<BridgeEvent>) -> Seq<u8>
        decreases events.len(),
    {
        if events.len() == 0 {
            Seq::empty()
        } else {
            self.flushed(events[0]) + self.step(events[0]).delivered(events.drop_first())
        }
    }
}

/// One event moves bytes from the front of the queue to the descriptor or
/// from the channel to the end of the queue, and never reorders them.
pub proof fn law_step_keeps_order(state: BridgeState, event: BridgeEvent)
    ensures
        state.pending + state.accepted(event) == state.flushed(event) + state.step(event).pending,
{
    assert(state.pending + state.accepted(event) =~= state.flushed(event) + state.step(
        event,
    ).pending);
}

/// The bytes submitted to the inbound channel reach the pseudo-terminal in
/// the order of their submission, whatever reads, blocked writes and partial
/// writes come between: what was written, followed by what is still
/// pending, is what was pending before followed by what was submitted.
pub proof fn law_inbound_is_first_in_first_out(state: BridgeState, events: Seq<BridgeEvent>)
    ensures
        state.delivered(events) + state.run(events).pending == state.pending + state.submitted(
            events,
        ),
    decreases events.len(),
{
    if events.len() == 0 {
        assert(state.delivered(events) + state.run(events).pending =~= state.pending
            + state.submitted(events));
    } else {
        let next = state.step(events[0]);
        let rest = events.drop_first();
        law_step_keeps_order(state, events[0]);
        law_inbound_is_first_in_first_out(next, rest);
        assert(state.delivered(events) + state.run(events).pending =~= state.flushed(events[0])
            + (next.delivered(rest) + next.run(rest).pending));
        assert(state.pending + state.submitted(events) =~= (state.pending + state.accepted(
            events[0],
        )) + next.submitted(rest));
        assert((state.flushed(events[0]) + next.pending) + next.submitted(rest)
            =~= state.flushed(events[0]) + (next.pending + next.submitted(rest)));
    }
}

/// Write readiness is asked for exactly while bytes are pending, after every
/// event.
pub proof fn law_armed_while_pending(state: BridgeState, event: BridgeEvent)
    requires
        state.consistent(),
    ensures
        state.step(event).consistent(),
{
}

/// The worker is told to close exactly when an event closes the bridge.
pub proof fn law_close_is_announced(state: BridgeState, event: BridgeEvent)
    requires
        !state.closed,
    ensures
        state.step(event).closed <==> state.reaction(event) == BridgeAction::Close,
{
}

/// An event that leaves the session running closes the bridge only when
/// nothing is pending any more.
pub proof fn law_orderly_close_leaves_nothing(state: BridgeState, event: BridgeEvent)
    requires
        !state.closed,
        BridgeState::orderly(event),
    ensures
        state.step(event).closed ==> state.step(event).pending.len() == 0,
{
}

/// Once the inbound channel is closed, the bridge closes as soon as the
/// last pending byte is written, and not before.
pub proof fn law_drain_then_close(state: BridgeState, count: usize)
    requires
        !state.closed,
        state.draining,
    ensures
        state.step(BridgeEvent::PrimaryWritten(WriteOutcome::Written(count))).closed <==> count
            >= state.pending.len(),
{
}

/// What is submitted before the inbound channel is closed is all written,
/// in order, before the bridge closes, as long as nothing fails and the
/// session is not shut down: at the close, what was written is exactly what
/// was pending at the start followed by what was submitted.
pub proof fn law_orderly_close_delivers_all(state: BridgeState, events: Seq<BridgeEvent>)
    requires
        state.closed ==> state.pending.len() == 0,
        forall|i: int| 0 <= i < events.len() ==> BridgeState::orderly(#[trigger] events[i]),
    ensures
        state.run(events).closed ==> {
            &&& state.run(events).pending.len() == 0
            &&& state.delivered(events) == state.pending + state.submitted(events)
        },
    decreases events.len(),
{
    law_inbound_is_first_in_first_out(state, events);
    if events.len() > 0 {
        let rest = events.drop_first();
        assert forall|i: int| 0 <= i < rest.len() implies BridgeState::orderly(
            #[trigger] rest[i],
        ) by {
            assert(rest[i] == events[i + 1]);
        }
        assert(BridgeState::orderly(events[0]));
        law_orderly_close_delivers_all(state.step(events[0]), rest);
    }
    if state.run(events).closed {
        assert(state.delivered(events) + state.run(events).pending =~= state.delivered(events));
    }
}

/// A closed bridge stays closed and does nothing more.
pub proof fn law_closed_is_final(state: BridgeState, event: BridgeEvent)
    requires
        state.closed,
    ensures
        state.step(event) == state,
        state.reaction(event) == BridgeAction::Wait,
{
}

/// The executable bridge.
pub struct Bridge {
    pending: Vec<u8>,
    write_armed: bool,
    draining: bool,
    closed: bool,
}

impl Bridge {
    pub closed spec fn view(&self) -> BridgeState {
        BridgeState {
            pending: self.pending@,
            armed: self.write_armed,
            draining: self.draining,
            closed: self.closed,
        }
    }

    /// A bridge with nothing pending, open, not asking for write readiness.
    pub fn new() -> (bridge: Self)
        ensures
            bridge@ == BridgeState::start(),
    {
        Bridge { pending: Vec::new(), write_armed: false, draining: false, closed: false }
    }

    /// The bytes to offer to the primary descriptor when it is writable.
    pub fn pending(&self) -> (bytes: &Vec<u8>)
        ensures
            bytes@ == self@.pending,
    {
        &self.pending
    }

    pub fn is_write_armed(&self) -> (armed: bool)
        ensures
            armed == self@.armed,
    {
        self.write_armed
    }

    /// Whether the inbound channel is closed and only the rest is written.
    pub fn is_draining(&self) -> (draining: bool)
        ensures
            draining == self@.draining,
    {
        self.draining
    }

    pub fn is_closed(&self) -> (closed: bool)
        ensures
            closed == self@.closed,
    {
        self.closed
    }

    /// Takes one event and says what to do next.
    pub fn step(&mut self, event: BridgeEvent) -> (action: BridgeAction)
        ensures
            final(self)@ == old(self)@.step(event),
            action == old(self)@.reaction(event),
    {
        if self.closed {
            return BridgeAction::Wait;
        }
        match event {
            BridgeEvent::PrimaryRead(ReadOutcome::Data(bytes)) => BridgeAction::Forward(bytes),
            BridgeEvent::PrimaryRead(ReadOutcome::WouldBlock) => BridgeAction::Wait,
            BridgeEvent::PrimaryRead(ReadOutcome::Ended) => {
                self.closed = true;
                BridgeAction::Close
            },
            BridgeEvent::PrimaryRead(ReadOutcome::Failed) => {
                self.closed = true;
                BridgeAction::Close
            },
            BridgeEvent::PrimaryWritten(WriteOutcome::Written(count)) => {
                let cut = if count <= self.pending.len() {
                    count
                } else {
                    self.pending.len()
                };
                let rest = self.pending.split_off(cut);
                self.pending = rest;
                let was_armed = self.write_armed;
                self.write_armed = self.pending.len() > 0;
                if self.draining && !self.write_armed {
                    self.closed = true;
                    BridgeAction::Close
                } else if was_armed && !self.write_armed {
                    BridgeAction::DisarmWrite
                } else {
                    BridgeAction::Wait
                }
            },
            BridgeEvent::PrimaryWritten(WriteOutcome::WouldBlock) => BridgeAction::Wait,
            BridgeEvent::PrimaryWritten(WriteOutcome::Failed) => {
                self.closed = true;
                BridgeAction::Close
            },
            BridgeEvent::Inbound(bytes) => {
                if self.draining {
                    return BridgeAction::Wait;
                }
                let mut bytes = bytes;
                self.pending.append(&mut bytes);
                let was_armed = self.write_armed;
                self.write_armed = self.pending.len() > 0;
                if !was_armed && self.write_armed {
                    BridgeAction::ArmWrite
                } else {
                    BridgeAction::Wait
                }
            },
            BridgeEvent::InboundClosed => {
                self.draining = true;
                if self.pending.len() == 0 {
                    self.closed = true;
                    BridgeAction::Close
                } else {
                    BridgeAction::Wait
                }
            },
            BridgeEvent::Shutdown => {
                self.closed = true;
                BridgeAction::Close
            },
        }
    }
}

} // verus!
