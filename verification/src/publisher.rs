//! The stream side: a publisher polls the sink and turns each non-empty drain
//! into one stream event.

use crate::pcm::pcm_bytes;
use crate::shared::SharedSink;
use crate::shared::SinkUnavailable;
use crate::sink::after_drain;
use crate::sink::appended;
use crate::sink::drained;
use crate::sink::SampleSink;
use vstd::prelude::*;

verus! {

/// Time between two polls of the sink, in milliseconds.
pub const POLL_INTERVAL_MS: u64 = 10;

/// Where a publisher stands.
#[derive(Clone, Copy, Debug, PartialEq, Eq, Structural)]
pub enum PublisherState {
    /// The connection was accepted; polling has not begun.
    Idle,
    /// The sink is polled on a fixed cadence.
    Polling,
    /// A drained chunk is on its way to the network.
    Emitting,
    /// The connection is gone. Nothing is polled any more.
    Closed,
}

/// The publisher once polling begins.
pub open spec fn after_begin(state: PublisherState) -> PublisherState {
    match state {
        PublisherState::Idle => PublisherState::Polling,
        _ => state,
    }
}

/// Whether a publisher in `state` that is handed `bytes` from a drain emits
/// them.
pub open spec fn emits(state: PublisherState, bytes: Seq<u8>) -> bool {
    state == PublisherState::Polling && bytes.len() > 0
}

/// The publisher once a drain has handed it `bytes`.
pub open spec fn after_drained(state: PublisherState, bytes: Seq<u8>) -> PublisherState {
    if emits(state, bytes) {
        PublisherState::Emitting
    } else {
        state
    }
}

/// The publisher once the network has taken the event.
pub open spec fn after_delivered(state: PublisherState) -> PublisherState {
    match state {
        PublisherState::Emitting => PublisherState::Polling,
        _ => state,
    }
}

/// `Closed` is terminal: a closed publisher stays closed whatever happens,
/// and emits nothing.
pub proof fn lemma_closed_is_terminal(bytes: Seq<u8>)
    ensures
        after_begin(PublisherState::Closed) == PublisherState::Closed,
        after_drained(PublisherState::Closed, bytes) == PublisherState::Closed,
        after_delivered(PublisherState::Closed) == PublisherState::Closed,
        !emits(PublisherState::Closed, bytes),
{
}

/// The end of one connection does not disturb capture or the next
/// connection. Let a publisher close on a sink that holds `leftover`, let the
/// source then deliver `batch`, and let a fresh publisher begin and poll: it
/// emits the bytes of `batch`, and nothing else.
pub proof fn lemma_next_connection_receives_fresh_data(leftover: Seq<u8>, batch: Seq<u32>)
    requires
        batch.len() > 0,
    ensures
        ({
            let refilled = appended(after_drain(leftover), pcm_bytes(batch));
            let fresh = after_begin(PublisherState::Idle);
            &&& drained(refilled) == pcm_bytes(batch)
            &&& emits(fresh, drained(refilled))
            &&& after_drained(fresh, drained(refilled)) == PublisherState::Emitting
        }),
{
    assert(appended(after_drain(leftover), pcm_bytes(batch)) =~= pcm_bytes(batch));
}

/// A non-empty chunk of sample bytes, framed as one unit for the network.
pub struct StreamEvent {
    payload: Vec<u8>,
}

impl View for StreamEvent {
    type V = Seq<u8>;

    closed spec fn view(&self) -> Seq<u8> {
        self.payload@
    }
}

impl StreamEvent {
    #[verifier::type_invariant]
    spec fn holds_bytes(self) -> bool {
        self.payload@.len() > 0
    }

    /// Frames `bytes` as an event; there is no event without bytes.
    pub fn frame(bytes: Vec<u8>) -> (event: Option<StreamEvent>)
        ensures
            event is Some <==> bytes@.len() > 0,
            event matches Some(framed) ==> framed@ == bytes@,
    {
        if bytes.len() == 0 {
            None
        } else {
            Some(StreamEvent { payload: bytes })
        }
    }

    /// The bytes that the event carries.
    pub fn payload(&self) -> (bytes: &[u8])
        ensures
            bytes@ == self@,
            bytes@.len() > 0,
    {
        proof {
            use_type_invariant(self);
        }
        self.payload.as_slice()
    }

    /// Hands the bytes over, ending the event.
    pub fn into_bytes(self) -> (bytes: Vec<u8>)
        ensures
            bytes@ == self@,
            bytes@.len() > 0,
    {
        proof {
            use_type_invariant(&self);
        }
        self.payload
    }
}

/// The consumer of one client connection.
pub struct StreamPublisher {
    state: PublisherState,
}

impl StreamPublisher {
    /// Where the publisher stands.
    pub closed spec fn spec_state(&self) -> PublisherState {
        self.state
    }

    /// Where the publisher stands.
    #[verifier::when_used_as_spec(spec_state)]
    pub fn state(&self) -> (state: PublisherState)
        ensures
            state == self.spec_state(),
    {
        self.state
    }

    /// A publisher for a connection that was just accepted.
    pub fn new() -> (publisher: StreamPublisher)
        ensures
            publisher.state() == PublisherState::Idle,
    {
        StreamPublisher { state: PublisherState::Idle }
    }

    /// Begins polling.
    pub fn begin(&mut self)
        ensures
            final(self).state() == after_begin(old(self).state()),
    {
        match self.state {
            PublisherState::Idle => {
                self.state = PublisherState::Polling;
            },
            _ => {},
        }
    }

    /// Takes what a drain of the sink returned. A polling publisher that is
    /// handed bytes frames them as one event and turns to emitting it; handed
    /// nothing, it goes on polling. A publisher that is not polling emits
    /// nothing and stays as it is.
    pub fn on_drained(&mut self, bytes: Vec<u8>) -> (event: Option<StreamEvent>)
        ensures
            final(self).state() == after_drained(old(self).state(), bytes@),
            event is Some <==> emits(old(self).state(), bytes@),
            event matches Some(framed) ==> framed@ == bytes@,
    {
        match self.state {
            PublisherState::Polling => {
                let event = StreamEvent::frame(bytes);
                if event.is_some() {
                    self.state = PublisherState::Emitting;
                }
                event
            },
            _ => None,
        }
    }

    /// One poll cycle: a polling publisher drains the sink and emits what it
    /// found, if anything. A publisher that is not polling leaves the sink
    /// alone.
    pub fn poll(&mut self, sink: &mut SampleSink) -> (event: Option<StreamEvent>)
        ensures
            old(self).state() == PublisherState::Polling ==> {
                &&& final(sink)@ == after_drain(old(sink)@)
                &&& final(self).state() == after_drained(
                    PublisherState::Polling,
                    drained(old(sink)@),
                )
                &&& event is Some <==> old(sink)@.len() > 0
                &&& event matches Some(framed) ==> framed@ == drained(old(sink)@)
            },
            old(self).state() != PublisherState::Polling ==> {
                &&& final(sink)@ == old(sink)@
                &&& final(self).state() == old(self).state()
                &&& event is None
            },
    {
        match self.state {
            PublisherState::Polling => {
                let bytes = sink.drain_all();
                self.on_drained(bytes)
            },
            _ => None,
        }
    }

    /// One poll cycle on a shared sink. A publisher that is not polling
    /// answers `Ok(None)` without touching the sink. A polling one drains the
    /// sink in one step and emits what it found, if anything.
    pub fn poll_shared(&mut self, sink: &SharedSink) -> (polled: Result<
        Option<StreamEvent>,
        SinkUnavailable,
    >)
        ensures
            match polled {
                Ok(Some(framed)) => {
                    &&& old(self).state() == PublisherState::Polling
                    &&& final(self).state() == PublisherState::Emitting
                    &&& framed@.len() > 0
                },
                Ok(None) => final(self).state() == old(self).state(),
                Err(_) => {
                    &&& old(self).state() == PublisherState::Polling
                    &&& final(self).state() == PublisherState::Polling
                },
            },
    {
        match self.state {
            PublisherState::Polling => {
                match sink.drain_all() {
                    Ok(bytes) => Ok(self.on_drained(bytes)),
                    Err(unavailable) => Err(unavailable),
                }
            },
            _ => Ok(None),
        }
    }

    /// Records that the network took the event: the publisher polls again.
    pub fn delivered(&mut self)
        ensures
            final(self).state() == after_delivered(old(self).state()),
    {
        match self.state {
            PublisherState::Emitting => {
                self.state = PublisherState::Polling;
            },
            _ => {},
        }
    }

    /// Ends the publisher: the peer dropped the connection, a write failed,
    /// or the process shuts down. What the sink still holds is discarded. A
    /// publisher that was closed before leaves the sink alone.
    pub fn close(&mut self, sink: &mut SampleSink)
        ensures
            final(self).state() == PublisherState::Closed,
            old(self).state() != PublisherState::Closed ==> final(sink)@ == after_drain(
                old(sink)@,
            ),
            old(self).state() == PublisherState::Closed ==> final(sink)@ == old(sink)@,
    {
        match self.state {
            PublisherState::Closed => {},
            _ => {
                self.state = PublisherState::Closed;
                let _ = sink.drain_all();
            },
        }
    }

    /// Ends the publisher of a shared sink, discarding in one step what the
    /// sink still holds. A publisher that was closed before answers `Ok`
    /// without touching the sink.
    pub fn close_shared(&mut self, sink: &SharedSink) -> (closed: Result<(), SinkUnavailable>)
        ensures
            final(self).state() == PublisherState::Closed,
            old(self).state() == PublisherState::Closed ==> closed is Ok,
    {
        match self.state {
            PublisherState::Closed => Ok(()),
            _ => {
                self.state = PublisherState::Closed;
                match sink.drain_all() {
                    Ok(_) => Ok(()),
                    Err(unavailable) => Err(unavailable),
                }
            },
        }
    }
}

} // verus!
