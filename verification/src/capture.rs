//! The capture side: what the audio callback does with each batch of samples,
//! and when capture stops.

use crate::error::StreamError;
use crate::pcm::encode_samples;
use crate::pcm::pcm_bytes;
use crate::shared::SharedSink;
use crate::shared::SinkUnavailable;
use crate::sink::appended;
use crate::sink::SampleSink;
use vstd::prelude::*;

verus! {

/// How the attempt to open the default input device ended.
#[derive(Clone, Copy, Debug, PartialEq, Eq, Structural)]
pub enum StartupReport {
    /// The host has no default input device.
    NoInputDevice,
    /// The device's default configuration could not be read.
    ConfigUnreadable,
    /// The backend refused to build or to start the stream.
    StreamRejected,
    /// The stream is running.
    Playing,
}

/// Where capture stands.
#[derive(Clone, Copy, Debug, PartialEq, Eq, Structural)]
pub enum CaptureState {
    /// Batches are accepted.
    Capturing,
    /// The backend reported an error; no batch is accepted any more.
    Halted,
    /// Capture was shut down; no batch is accepted any more.
    Stopped,
}

/// The error that a startup report amounts to, if it is one.
pub open spec fn startup_error(report: StartupReport) -> Option<StreamError> {
    match report {
        StartupReport::NoInputDevice => Some(StreamError::DeviceUnavailable),
        StartupReport::ConfigUnreadable => Some(StreamError::DeviceUnavailable),
        StartupReport::StreamRejected => Some(StreamError::StreamConstructionFailure),
        StartupReport::Playing => None,
    }
}

/// Capture after a backend error.
pub open spec fn after_backend_error(state: CaptureState) -> CaptureState {
    match state {
        CaptureState::Capturing => CaptureState::Halted,
        _ => state,
    }
}

/// The producer of sample bytes.
pub struct CaptureSource {
    state: CaptureState,
}

impl CaptureSource {
    /// Where capture stands.
    pub closed spec fn spec_state(&self) -> CaptureState {
        self.state
    }

    /// Where capture stands.
    #[verifier::when_used_as_spec(spec_state)]
    pub fn state(&self) -> (state: CaptureState)
        ensures
            state == self.spec_state(),
    {
        self.state
    }

    /// Turns the outcome of opening the device into a running source or into
    /// the error that ends startup.
    pub fn start(report: StartupReport) -> (started: Result<CaptureSource, StreamError>)
        ensures
            match startup_error(report) {
                Some(error) => started == Err::<CaptureSource, StreamError>(error),
                None => started matches Ok(source) && source.state() == CaptureState::Capturing,
            },
    {
        match report {
            StartupReport::NoInputDevice => Err(StreamError::DeviceUnavailable),
            StartupReport::ConfigUnreadable => Err(StreamError::DeviceUnavailable),
            StartupReport::StreamRejected => Err(StreamError::StreamConstructionFailure),
            StartupReport::Playing => Ok(CaptureSource { state: CaptureState::Capturing }),
        }
    }

    /// Hands one batch of samples to the sink: while capturing, the batch's
    /// bytes are appended; otherwise the sink is left as it is.
    pub fn deliver(&self, sink: &mut SampleSink, samples: &[u32]) -> (accepted: bool)
        ensures
            accepted <==> self.state() == CaptureState::Capturing,
            accepted ==> final(sink)@ == appended(old(sink)@, pcm_bytes(samples@)),
            !accepted ==> final(sink)@ == old(sink)@,
    {
        match self.state {
            CaptureState::Capturing => {
                let bytes = encode_samples(samples);
                sink.append(bytes.as_slice());
                true
            },
            _ => false,
        }
    }

    /// Hands one batch of samples to a shared sink, in one append. A source
    /// that is not capturing answers `Ok(false)` without touching the sink;
    /// one that is capturing answers `Ok(true)` once the batch's bytes are
    /// appended, or the sink's failure.
    pub fn deliver_shared(&self, sink: &SharedSink, samples: &[u32]) -> (accepted: Result<
        bool,
        SinkUnavailable,
    >)
        ensures
            match accepted {
                Ok(appended) => appended <==> self.state() == CaptureState::Capturing,
                Err(_) => self.state() == CaptureState::Capturing,
            },
    {
        match self.state {
            CaptureState::Capturing => {
                let bytes = encode_samples(samples);
                match sink.append(bytes.as_slice()) {
                    Ok(()) => Ok(true),
                    Err(unavailable) => Err(unavailable),
                }
            },
            _ => Ok(false),
        }
    }

    /// Records an error reported by the backend while capture runs: capture
    /// halts, and the error to surface is returned.
    pub fn backend_error(&mut self) -> (error: StreamError)
        ensures
            error == StreamError::CaptureRuntimeError,
            final(self).state() == after_backend_error(old(self).state()),
    {
        match self.state {
            CaptureState::Capturing => {
                self.state = CaptureState::Halted;
            },
            _ => {},
        }
        StreamError::CaptureRuntimeError
    }

    /// Shuts capture down.
    pub fn shutdown(&mut self)
        ensures
            final(self).state() == CaptureState::Stopped,
    {
        self.state = CaptureState::Stopped;
    }
}

} // verus!
