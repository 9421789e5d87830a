//! The failures of the relay and how far each one reaches.

use vstd::prelude::*;

verus! {

/// A failure of the relay.
#[derive(Clone, Copy, Debug, PartialEq, Eq, Structural)]
pub enum StreamError {
    /// No input device was found, or its default configuration could not be
    /// read.
    DeviceUnavailable,
    /// The audio backend refused the requested configuration.
    StreamConstructionFailure,
    /// The audio backend reported an error while capture was running.
    CaptureRuntimeError,
    /// A write to a client connection failed.
    ConnectionError,
}

/// What an error brings down.
#[derive(Clone, Copy, Debug, PartialEq, Eq, Structural)]
pub enum Impact {
    /// Capture never starts: the process cannot do its work.
    AbortsStartup,
    /// Capture halts; connections stay open and receive no further data.
    HaltsCapture,
    /// One publisher ends; capture and other connections go on.
    ClosesConnection,
}

impl StreamError {
    /// How far this error reaches.
    pub open spec fn spec_impact(self) -> Impact {
        match self {
            StreamError::DeviceUnavailable => Impact::AbortsStartup,
            StreamError::StreamConstructionFailure => Impact::AbortsStartup,
            StreamError::CaptureRuntimeError => Impact::HaltsCapture,
            StreamError::ConnectionError => Impact::ClosesConnection,
        }
    }

    /// How far this error reaches.
    #[verifier::when_used_as_spec(spec_impact)]
    pub fn impact(self) -> (impact: Impact)
        ensures
            impact == self.spec_impact(),
    {
        match self {
            StreamError::DeviceUnavailable => Impact::AbortsStartup,
            StreamError::StreamConstructionFailure => Impact::AbortsStartup,
            StreamError::CaptureRuntimeError => Impact::HaltsCapture,
            StreamError::ConnectionError => Impact::ClosesConnection,
        }
    }

    /// Whether the error ends the process at startup.
    pub fn is_fatal_at_startup(self) -> (fatal: bool)
        ensures
            fatal <==> self.impact() == Impact::AbortsStartup,
    {
        match self {
            StreamError::DeviceUnavailable => true,
            StreamError::StreamConstructionFailure => true,
            StreamError::CaptureRuntimeError => false,
            StreamError::ConnectionError => false,
        }
    }

    /// Whether capture is left running by the error. Only a failure of one
    /// client connection leaves it so.
    pub fn spares_capture(self) -> (spared: bool)
        ensures
            spared <==> self.impact() == Impact::ClosesConnection,
    {
        match self {
            StreamError::ConnectionError => true,
            _ => false,
        }
    }
}

} // verus!
