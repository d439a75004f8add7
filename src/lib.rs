//! Verified core of a multi-instrument, multi-channel software synthesizer:
//! MIDI parsing and channel filtering, voice allocation, envelope staging,
//! monophonic note priority, noise generation, parameter blocks, event
//! fan-out, routing, reverb delay sizing, and configuration and
//! command-line parsing.

pub mod text;
pub mod waveform;
pub mod midi;
pub mod voice_pool;
pub mod envelope;
pub mod cv;
pub mod noise;
pub mod drums;
pub mod parameters;
pub mod mixer;
pub mod config;
pub mod cli;
pub mod notes;
pub mod ui;
pub mod reverb;
pub mod bus;
