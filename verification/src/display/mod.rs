//! The pixel-write contract, its backends and the drawing helper over it.

pub mod backend;
pub mod drawer;
pub mod pix_writer;
pub mod pix_writer_impl;
