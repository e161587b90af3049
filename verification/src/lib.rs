//! Audio-reactive visual engine: the verified core.
//!
//! The modules hold the engine's decisions and data structures: configuration
//! enums, the event bus and its audio triple buffer, the sample ring buffers,
//! the audio-to-parameter mapping router, the shader registry and its hot
//! reload, the MIDI, OSC and gamepad decoders and the overlay's shader
//! navigation.
pub mod config;
pub mod event;
pub mod gamepad;
pub mod mapping;
pub mod midi;
pub mod osc;
pub mod overlay;
pub mod bus;
pub mod builtin_shaders;
pub mod registry;
pub mod reload;
pub mod ring;
