//! Small drawing routines that exercise a display.

pub mod checkerboard;
pub mod pure_color;
