//! A sine tone for an audio output stream.
//!
//! `config` chooses the stream configuration from what a device supports,
//! `generator` keeps the phase of the tone and produces its samples,
//! `writer` fills the driver's interleaved buffers with them, and `session`
//! decides the course of one playback.
pub mod config;
pub mod generator;
pub mod session;
pub mod writer;
