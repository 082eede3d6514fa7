//! Core of a software-defined video controller: it drives a raster display
//! built from serial-in/parallel-out shift registers, or from a bare parallel
//! GPIO bus, in place of a display controller chip.
//!
//! The library never touches a pin. Its drivers work on plain values: an
//! output operation returns, as a list of [`pin::PinWrite`]s, exactly the
//! writes that have to reach the wire, in order; an input operation is handed
//! the levels that were sampled. A thin hardware layer performs the writes
//! and takes the samples. Every contract is therefore about values, and is
//! proved.
//!
//! * [`sipo`]: bit-banged shift-register chains, alone or as a bank of lanes
//!   in lockstep on one shared clock and latch.
//! * [`shift_register`]: what such chains do with the pin writes, and the
//!   laws that tie the drivers' waveforms to the chains' outputs.
//! * [`par_data_rw`]: fixed-width parallel buses, line 0 least significant.
//! * [`display`]: the pixel-write contract, the drawing helper over it, the
//!   double-buffered framebuffer and the two backends.
//! * [`demo`]: small drawing routines.
//! * [`bits`], [`pin`], [`utils`]: bit arithmetic, line descriptions and the
//!   integer types of addresses and colours.

pub mod bits;
pub mod demo;
pub mod display;
pub mod par_data_rw;
pub mod pin;
pub mod shift_register;
pub mod sipo;
pub mod utils;
