//! Input from the keyboard.

pub mod keyboard;
