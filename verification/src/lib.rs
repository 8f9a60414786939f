//! A minimal engine for continuous, sample-accurate audio output.
//!
//! The library turns a caller-supplied per-sample generator into the body of
//! a backend-driven audio callback: a sample clock is advanced once per
//! output frame, the generator is invoked with the post-advance clock, and
//! its value is fanned out identically across every channel slot of the
//! frame. Device discovery and stream registration belong to the audio
//! backend and stay outside this crate; the resolver here makes the
//! construction decisions on the plain values the backend reports.

pub mod clock;
pub mod engine;
pub mod errors;
pub mod resolver;
