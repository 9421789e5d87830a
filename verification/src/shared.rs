//! A sink shared between the capture thread and the stream reader.
//!
//! The sink sits behind a lock, and every operation takes the lock once, does
//! its whole change to the sink, and lets the lock go. No guard leaves this
//! module, so no thread ever asks for the lock while holding it.
//!
//! Between two operations of one thread another thread may change the sink,
//! so the contracts here say nothing of its contents: what an operation does
//! under the lock is the contract of the `SampleSink` method that it calls.

use crate::sink::SampleSink;
use std::sync::Arc;
use std::sync::Mutex;
use std::sync::MutexGuard;
use vstd::prelude::*;

verus! {

/// `std::sync::Mutex`, as an opaque type.
#[verifier::external_type_specification]
#[verifier::external_body]
#[verifier::reject_recursive_types(T)]
pub struct ExMutex<T: ?Sized>(Mutex<T>);

/// `std::sync::MutexGuard`, as an opaque type.
#[verifier::external_type_specification]
#[verifier::external_body]
#[verifier::reject_recursive_types(T)]
pub struct ExMutexGuard<'a, T: ?Sized + 'a>(MutexGuard<'a, T>);

/// The sink cannot be used: a thread panicked while it held the sink's lock.
#[derive(Clone, Copy, Debug, PartialEq, Eq, Structural)]
pub struct SinkUnavailable;

/// `Mutex::new`: a lock around `sink`. Nothing is claimed of the result.
#[verifier::external_body]
fn new_lock(sink: SampleSink) -> (lock: Mutex<SampleSink>) {
    Mutex::new(sink)
}

/// `Mutex::lock`: waits for the lock and returns its guard, or `None` where
/// the lock is poisoned. Nothing is claimed of which of the two comes back,
/// nor of the sink behind the guard.
#[verifier::external_body]
fn acquire<'a>(lock: &'a Mutex<SampleSink>) -> (guard: Option<MutexGuard<'a, SampleSink>>) {
    lock.lock().ok()
}

/// `DerefMut::deref_mut` of `MutexGuard`: the sink behind a held lock. Nothing
/// is claimed of what the sink holds.
#[verifier::external_body]
fn held<'a, 'b>(guard: &'a mut MutexGuard<'b, SampleSink>) -> (sink: &'a mut SampleSink) {
    &mut **guard
}

/// A handle to a sink that several threads use: the capture callback appends
/// to it and the stream reader drains it. A clone is one more handle to the
/// same sink.
#[derive(Clone)]
pub struct SharedSink {
    cell: Arc<Mutex<SampleSink>>,
}

impl SharedSink {
    /// A new, empty sink, and the first handle to it.
    pub fn new() -> (shared: SharedSink) {
        SharedSink { cell: Arc::new(new_lock(SampleSink::new())) }
    }

    /// Appends `bytes` to the end of the sink, under the lock: no drain sees
    /// a part of them. Waits only until the lock is free. Fails, and appends
    /// nothing, where the sink is unavailable.
    pub fn append(&self, bytes: &[u8]) -> (done: Result<(), SinkUnavailable>) {
        match acquire(&self.cell) {
            Some(mut guard) => {
                let sink = held(&mut guard);
                sink.append(bytes);
                Ok(())
            },
            None => Err(SinkUnavailable),
        }
    }

    /// Removes and returns everything the sink holds, under the lock, and
    /// leaves it empty. Fails where the sink is unavailable.
    pub fn drain_all(&self) -> (out: Result<Vec<u8>, SinkUnavailable>) {
        match acquire(&self.cell) {
            Some(mut guard) => {
                let sink = held(&mut guard);
                Ok(sink.drain_all())
            },
            None => Err(SinkUnavailable),
        }
    }
}

} // verus!
