//! Input from the keyboard and output to the text display.

pub mod stdin;
pub mod stdout;
