//! A sleep timer for video playback: a countdown that dims the picture,
//! fades the sound and finally asks the host to suspend.
//!
//! The crate holds the decisions only. Every state change is a function
//! from the current state to the next one together with the list of
//! commands that the shell around it has to carry out.

pub mod dim;
pub mod effect;
pub mod fade;
pub mod laws;
pub mod model;
pub mod player;
pub mod session;
pub mod status;
pub mod text;
pub mod video;
