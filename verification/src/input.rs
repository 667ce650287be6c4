//! Input handling.

pub mod keyboard;
