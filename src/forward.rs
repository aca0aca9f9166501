use vstd::prelude::*;
use crate::payload::bytes_content;

verus! {

/// Where the task that feeds input to the terminal device stands.
#[derive(Clone, Copy, Debug, PartialEq, Eq, Structural)]
pub enum ForwardPhase {
    /// Taking chunks from the input queue and writing them to the device.
    Running,
    /// The queue was closed and drained; the writer has been released, which
    /// the shell sees as end of input.
    Closed,
    /// A write or flush failed; the task stopped without retrying.
    Faulted,
}

/// What the forwarding task observed.
#[derive(Debug)]
pub enum ForwardEvent {
    /// The next chunk came out of the input queue.
    Received(bytes::Bytes),
    /// The queue is closed and empty: every producer has gone.
    QueueClosed,
    /// Writing or flushing the last chunk failed.
    WriteFailed,
}

/// What the forwarding task should do next.
#[derive(Debug)]
pub enum ForwardAction {
    /// Write the chunk to the device, then flush, then report the next event.
    WriteAndFlush(bytes::Bytes),
    /// Drop the device writer and stop.
    ReleaseWriter,
    /// Drop the device writer and stop, recording the failure.
    Abort,
    /// Nothing: the task has already stopped.
    Idle,
}

/// One step of the forwarding task: the next phase and action after an event.
pub open spec fn forward_step(phase: ForwardPhase, event: ForwardEvent) -> (ForwardPhase, ForwardAction) {
    match phase {
        ForwardPhase::Running => match event {
            ForwardEvent::Received(b) => (ForwardPhase::Running, ForwardAction::WriteAndFlush(b)),
            ForwardEvent::QueueClosed => (ForwardPhase::Closed, ForwardAction::ReleaseWriter),
            ForwardEvent::WriteFailed => (ForwardPhase::Faulted, ForwardAction::Abort),
        },
        _ => (phase, ForwardAction::Idle),
    }
}

/// The bytes an action writes to the device.
pub open spec fn action_bytes(action: ForwardAction) -> Seq<u8> {
    match action {
        ForwardAction::WriteAndFlush(b) => bytes_content(b),
        _ => Seq::empty(),
    }
}

/// The bytes written to the device while the task, starting in `phase`,
/// takes in `events` one after another.
pub open spec fn written_from(phase: ForwardPhase, events: Seq<ForwardEvent>) -> Seq<u8>
    decreases events.len(),
{
    if events.len() == 0 {
        Seq::empty()
    } else {
        let (next, action) = forward_step(phase, events[0]);
        action_bytes(action) + written_from(next, events.drop_first())
    }
}

/// The bytes of `chunks` one after another.
pub open spec fn concat_chunks(chunks: Seq<bytes::Bytes>) -> Seq<u8>
    decreases chunks.len(),
{
    if chunks.len() == 0 {
        Seq::empty()
    } else {
        bytes_content(chunks[0]) + concat_chunks(chunks.drop_first())
    }
}

/// Feeds the shell's input: takes chunks from the bounded input queue in
/// order and writes each to the terminal device.
pub struct Forwarder {
    pub phase: ForwardPhase,
}

impl Forwarder {
    /// A task that has not yet seen any chunk.
    pub fn new() -> (r: Forwarder)
        ensures
            r.phase == ForwardPhase::Running,
    {
        Forwarder { phase: ForwardPhase::Running }
    }

    /// Whether the task still forwards input.
    pub fn is_running(&self) -> (r: bool)
        ensures
            r == (self.phase == ForwardPhase::Running),
    {
        self.phase == ForwardPhase::Running
    }

    /// Whether the task stopped because the device could not be written.
    pub fn has_faulted(&self) -> (r: bool)
        ensures
            r == (self.phase == ForwardPhase::Faulted),
    {
        self.phase == ForwardPhase::Faulted
    }

    /// Takes in one event and says what to do next.
    pub fn on_event(&mut self, event: ForwardEvent) -> (action: ForwardAction)
        ensures
            (final(self).phase, action) == forward_step(old(self).phase, event),
    {
        match self.phase {
            ForwardPhase::Running => match event {
                ForwardEvent::Received(b) => ForwardAction::WriteAndFlush(b),
                ForwardEvent::QueueClosed => {
                    self.phase = ForwardPhase::Closed;
                    ForwardAction::ReleaseWriter
                },
                ForwardEvent::WriteFailed => {
                    self.phase = ForwardPhase::Faulted;
                    ForwardAction::Abort
                },
            },
            _ => ForwardAction::Idle,
        }
    }
}

/// The device receives exactly the submitted chunks, concatenated in the order
/// they were queued: nothing is lost, repeated or reordered.
pub proof fn lemma_forwarding_keeps_order(chunks: Seq<bytes::Bytes>)
    ensures
        written_from(
            ForwardPhase::Running,
            chunks.map_values(|b: bytes::Bytes| ForwardEvent::Received(b)),
        ) == concat_chunks(chunks),
    decreases chunks.len(),
{
    let events = chunks.map_values(|b: bytes::Bytes| ForwardEvent::Received(b));
    if chunks.len() > 0 {
        lemma_forwarding_keeps_order(chunks.drop_first());
        assert(events.drop_first() =~= chunks.drop_first().map_values(
            |b: bytes::Bytes| ForwardEvent::Received(b),
        ));
    } else {
        assert(events.len() == 0);
    }
}

proof fn lemma_stopped_writes_nothing(phase: ForwardPhase, events: Seq<ForwardEvent>)
    requires
        phase != ForwardPhase::Running,
    ensures
        written_from(phase, events) == Seq::<u8>::empty(),
    decreases events.len(),
{
    if events.len() > 0 {
        lemma_stopped_writes_nothing(phase, events.drop_first());
        assert(Seq::<u8>::empty() + Seq::<u8>::empty() =~= Seq::<u8>::empty());
    }
}

/// Closing the input queue releases the device writer, so the shell sees end
/// of input with no termination request; after that nothing more is written,
/// whatever follows.
pub proof fn lemma_closed_queue_ends_input(rest: Seq<ForwardEvent>)
    ensures
        forward_step(ForwardPhase::Running, ForwardEvent::QueueClosed) == (
            ForwardPhase::Closed,
            ForwardAction::ReleaseWriter,
        ),
        written_from(ForwardPhase::Closed, rest) == Seq::<u8>::empty(),
{
    lemma_stopped_writes_nothing(ForwardPhase::Closed, rest);
}

} // verus!
