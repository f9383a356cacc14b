//! A window that slides in and out of the screen on a hotkey.
//!
//! The decisions of the program, without the desktop that they are about. The
//! program is a machine that waits for one call at a time: `request` is the
//! call, and `step` takes what the call gave back. `startup` is the machine
//! from the start of the program to its event loop, `controller` the one from
//! there to its end; `laws` says what they do over whole runs.
pub mod config;
pub mod console;
pub mod controller;
pub mod edge_check;
pub mod failure;
pub mod focus_lost;
pub mod hotkey;
pub mod laws;
pub mod listing;
pub mod menu;
pub mod open_config;
pub mod protocol;
pub mod register;
pub mod startup;
pub mod toggle;
pub mod types;
