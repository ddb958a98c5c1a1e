//! A minimal real-time host for binary audio-processing plugins.
//!
//! The host loads one plugin module, negotiates its audio configuration,
//! synthesizes a fixed test tone at wall-clock cadence on a background
//! producer, hands the audio over one fixed-size block at a time through an
//! ordered channel, and drives the plugin's processing entry point while
//! keeping its lifecycle protocol intact.
//!
//! The modules here carry the host's decisions and their proofs: the session
//! lifecycle state machine, the capability table answered to the plugin, the
//! deadline arithmetic that paces the producer, the ordered block handoff, and
//! the per-invocation channel layout. The surrounding binary performs the
//! outside work — module loading, window creation, sleeping, and the plugin
//! calls themselves — only where these verified functions direct it to.

pub mod callbacks;
pub mod channel;
pub mod generator;
pub mod render;
pub mod session;
