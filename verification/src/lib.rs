//! Verified core of the MonsGeek profile switcher.
pub mod cli;
pub mod config;
pub mod daemon;
pub mod events;
pub mod gui;
pub mod hid;
pub mod hotkey;
pub mod overlay;
pub mod status;
pub mod text;
pub mod utils;
