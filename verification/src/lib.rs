//! Transport control for a terminal audio player.
//!
//! The crate holds the decisions of the player and none of its devices: how
//! raw keystrokes become transport commands, how a command changes the shared
//! playback flags and what it asks of the audio sink, when a track counts as
//! finished, and what the terminal shows. Time, volume and speed are exact
//! integers here, so every contract is stated over plain numbers and
//! sequences.
//!
//! - [`keys`] reads the keyboard byte by byte; [`typing`] holds what is
//!   proved of it.
//! - [`transport`] keeps the playback flags and turns commands into actions.
//! - [`monitor`] decides when a track is over.
//! - [`display`] writes the progress line and the spectrum bars.
//! - [`capture`] queues captured samples between two visualization passes.
//! - [`position`], [`volume`] and [`speed`] are the units.

pub mod capture;
pub mod display;
pub mod keys;
pub mod monitor;
pub mod position;
pub mod speed;
pub mod transport;
pub mod typing;
pub mod volume;
