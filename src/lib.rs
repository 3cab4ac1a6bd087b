//! A monophonic note-synthesis engine, modelled exactly in integers.
//!
//! Note symbols map to semitone offsets, instruments to fixed tables of sine
//! partials, and each note of the vocabulary to a plan that fixes its
//! frequency, length and per-sample gain. The engine keeps one plan per note
//! for the current configuration and a single voice.
pub mod basetone;
pub mod cache;
pub mod config;
pub mod engine;
pub mod envelope;
pub mod instrument;
pub mod pitch;
pub mod synth;
pub mod text;
