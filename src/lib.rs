//! Amplitude envelopes and overtone amplitude generators.
//!
//! The library is generic over the sample type: the arithmetic on samples
//! (a product, a decay step, a range test) is handed in by the caller as a
//! closure, and the contracts state the result in terms of what that closure
//! promised. What is proved here is the bookkeeping around it: timers,
//! partial completion at a segment boundary, error precedence, overtone
//! indexing, joining and restarting.
pub mod error;
pub mod timer;
pub mod buffer;
pub mod amplitude;
pub mod amplitude_overtones;
