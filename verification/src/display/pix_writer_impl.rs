//! Ready-made black-and-white pixel writer over shift registers.

use vstd::prelude::*;
use crate::display::backend::sipo::BwPixelWriter8h8v1ch8;
use crate::pin::PinWrite;
use crate::sipo::{shiftreg_cfg, ControlGroup, ControlPinCfg, ParallelBank, SerLane};

verus! {

/// The default one-channel, 8-bit pixel writer.
pub type BwPixelWriter = BwPixelWriter8h8v1ch8;

/// Wiring from which a black-and-white pixel writer is built.
pub struct BwWriterCfg {
    /// Serial line of the horizontal address chain.
    pub h_ser: u8,
    /// Serial line of the vertical address chain.
    pub v_ser: u8,
    /// Serial line of the colour chain.
    pub bw_ser: u8,
    /// Clock, latch and clear shared by the three chains.
    pub ctrl: ControlPinCfg,
}

/// Builds a black-and-white pixel writer from three lanes and the control
/// group they share. Nothing is queued.
pub fn construct_default_bw_pixel_writer_from_sipo(
    h_lane: SerLane,
    v_lane: SerLane,
    bw_lane: SerLane,
    ctrl: ControlGroup,
) -> (writer: BwPixelWriter)
    ensures
        writer.p_sipo_bank.lanes@ == seq![bw_lane, v_lane, h_lane],
        writer.p_sipo_bank.ctrl == ctrl,
        writer.pending@ == Seq::<PinWrite>::empty(),
{
    let p_sipo_bank = ParallelBank::new([bw_lane, v_lane, h_lane], ctrl);
    BwPixelWriter8h8v1ch8 { p_sipo_bank, pending: Vec::new() }
}

/// Builds a black-and-white pixel writer from pin numbers: the lanes and the
/// control lines are created with the configuration for shift registers, the
/// serial lines driven low.
pub fn construct_default_bw_pixel_writer(cfg: BwWriterCfg) -> (writer: BwPixelWriter)
    ensures
        writer@.lane_pins == seq![cfg.bw_ser, cfg.v_ser, cfg.h_ser],
        writer@.lane_levels == seq![false, false, false],
        writer@.pending == Seq::<PinWrite>::empty(),
        forall|l: int|
            0 <= l < 3 ==> (#[trigger] writer.p_sipo_bank.lanes[l]).output_cfg() == shiftreg_cfg(),
        writer.p_sipo_bank.ctrl.shift.pin_id() == cfg.ctrl.srclk,
        writer.p_sipo_bank.ctrl.shift.output_cfg() == shiftreg_cfg(),
        writer.p_sipo_bank.ctrl.latch_pin() == cfg.ctrl.rclk,
        writer.p_sipo_bank.ctrl.latch matches Some(line) ==> line.output_cfg() == shiftreg_cfg(),
        writer.p_sipo_bank.ctrl.clear_pin() == cfg.ctrl.srclr,
        writer.p_sipo_bank.ctrl.clear matches Some(line) ==> line.is_active_low()
            == cfg.ctrl.clr_active_low && line.output_cfg() == shiftreg_cfg(),
{
    let h_lane = SerLane::from_pin(cfg.h_ser);
    let v_lane = SerLane::from_pin(cfg.v_ser);
    let bw_lane = SerLane::from_pin(cfg.bw_ser);
    let ctrl = ControlGroup::from_cfg(cfg.ctrl);
    let writer = construct_default_bw_pixel_writer_from_sipo(h_lane, v_lane, bw_lane, ctrl);
    writer
}

} // verus!
