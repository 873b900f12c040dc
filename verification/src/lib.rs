//! Phase4 analysis engine: the verified core.
//!
//! The modules here hold the logic of the engine that does not need a
//! device, a socket or a thread: the frame region layout and its sequence
//! lock, the per-byte MIDI clock and transport decision, buffer sizing, channel
//! selection, configuration checks and error classification, and the
//! decisions the runtime loops take.

#![allow(unused_imports)]

pub mod app;
pub mod audio;
pub mod cli;
pub mod config;
pub mod controller;
pub mod dsp;
pub mod events;
pub mod frames;
pub mod headless;
pub mod link;
pub mod midi;
pub mod names;
pub mod net;
pub mod osc;
pub mod pipeline;
pub mod recorder;
pub mod server;
pub mod text;
pub mod worker;
