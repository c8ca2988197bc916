//! Verified core of an audio-capture pipeline.
//!
//! Two independently clocked capture sources (a microphone and a system
//! loopback tap) push mono samples into bounded channels; a mixing loop
//! drains both at its own cadence, pairs them into 16-bit stereo frames,
//! and fans every frame out to two sinks: a WAV file and a length-prefixed
//! framed byte stream.
//!
//! Inside this crate a mono amplitude is a fixed-point integer (see
//! [`sample`]), so the mixing, clamping, framing and container logic is
//! plain integer arithmetic with proved contracts. Converting the hardware's
//! floating-point samples into that representation, and all device and file
//! I/O, happens outside the library.

pub mod capture;
pub mod channel;
pub mod frame;
pub mod mixer;
pub mod sample;
pub mod session;
pub mod wav;
