//! Sound subsystem for a device that plays short audio cues.
//!
//! Clients submit playback requests carrying a priority and an optional
//! deadline; an engine arbitrates between pending requests, and a
//! ring-buffered bridge streams decoded samples to the audio output without
//! blocking the real-time consumer.
//!
//! This crate holds the verified core: the command and request types with
//! their arbitration order, the engine state machine that consumes commands,
//! and the producer/consumer halves of the sample bridge.  Opening the audio
//! device, decoding files and running the event-loop thread are left to the
//! unverified shell around this library.
use vstd::prelude::*;

pub mod channel;
pub mod handle;
pub mod system;

pub use handle::OrbSoundSystemHandle;
pub use system::OrbSoundSystem;

verus! {

/// Everything that can go wrong in the sound system.
///
/// The device, stream and playback variants arise while opening the audio
/// output; the shell maps the device library's errors onto them.  File
/// errors are per-request and carry a human-readable detail.  `SystemIsDown`
/// is the only error a handle method returns: the engine thread has exited
/// and the command channel has no receiver.
#[derive(Debug)]
pub enum OrbSoundSystemError {
    /// No suitable audio device, or device enumeration failed.
    DeviceErr,
    /// The device was opened but stream creation failed.
    StreamErr,
    /// Sink creation failed on the working stream.
    PlayErr,
    /// A sound file could not be opened or decoded.
    SoundFileErr(String),
    /// The engine thread is gone; commands can no longer be delivered.
    SystemIsDown,
}

} // verus!
