//! A verified core for a low-latency, multi-subscriber live audio pipeline.
//!
//! Raw PCM chunks are accumulated into fixed-size frames, compressed by a
//! stateful codec, fanned out to independent subscribers under a chosen
//! backpressure policy, and on each client decoded and scheduled for gapless
//! playback. This crate holds the pipeline's data structures and decision
//! logic; device capture, the network transport and the asynchronous task
//! plumbing live outside it and exchange plain values with it.

pub mod capture;
pub mod config;
pub mod distributor;
pub mod encoder;
pub mod framing;
pub mod playback;
pub mod queue;
pub mod receiver;
pub mod session;
