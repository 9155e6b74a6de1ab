//! A loopback delay line between two independently clocked audio streams.
//!
//! Samples travel as the raw bit patterns of 32-bit floats (`u32`), so that
//! the queue logic is independent of floating-point arithmetic; the all-zero
//! pattern is silence.

pub mod feed;
pub mod latency;
pub mod queue;
pub mod session;
