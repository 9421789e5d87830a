//! Core of a live audio relay: samples captured on a real-time thread are
//! handed, as raw little-endian bytes, to a publisher that drains them into
//! framed stream events.

pub mod capture;
pub mod error;
pub mod history;
pub mod pcm;
pub mod publisher;
pub mod shared;
pub mod sink;
