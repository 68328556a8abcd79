//! A statistical memory-allocation sampling profiler, with its decision logic
//! verified.
//!
//! The library observes allocation and reallocation events inside a running
//! process and decides, by a probabilistic countdown rather than per-call
//! instrumentation, which events to record: each worker thread owns a
//! countdown of bytes drawn from a Poisson distribution with a 2 MiB mean,
//! every observed allocation size is subtracted from it, and when it is
//! exhausted exactly one weighted sample fires and the countdown is redrawn
//! ([`sampler`]). The hook adapter filters events that must never be sampled
//! ([`hooks`]); the observer controller reconciles the per-request on/off
//! state against a process-wide just-in-time-compiler incompatibility
//! ([`observer`]). Boundary helpers — the process runtime identifier and its
//! hyphenated textual form ([`runtime_id`]), and UTF-8 sanitization of byte
//! buffers ([`utf8`]) — round the crate out.
//!
//! Everything that touches the host engine, the collector, raw pointers or
//! floating point (the Poisson draws themselves) lives in the unverified
//! shell around this library, which feeds plain values in and carries the
//! decisions out.

pub mod hooks;
pub mod observer;
pub mod runtime_id;
pub mod sampler;
pub mod utf8;
