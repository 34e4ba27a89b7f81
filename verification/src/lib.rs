//! VaultMaid's decisions, apart from the window, the network, the disk and
//! the keyring.
//!
//! Every function here takes plain values and hands plain values back. What
//! the program must do outside (save a file, send a request, wait) leaves the
//! library as a value of `effect::Effect`, and the result comes back in as an
//! argument. Each function states what it returns in its `ensures`, over the
//! mathematical models that the types' views give.

pub mod api;
pub mod app;
pub mod cache;
pub mod config;
pub mod effect;
pub mod encoding;
pub mod message;
pub mod model;
pub mod pin;
pub mod state;
pub mod text;
pub mod ui;
