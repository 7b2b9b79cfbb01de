//! Text input and output for a machine without an operating system: a polled
//! PS/2 keyboard on one side, an 80 x 25 colour text display on the other.

pub mod io;
pub mod kernel;
