//! Fills the whole screen with one brightness.

use vstd::prelude::*;
use crate::display::drawer::{block_offered, line_offered};
use crate::display::pix_writer::PixelWriter;
use crate::display::pix_writer_impl::{construct_default_bw_pixel_writer, BwPixelWriter,
    BwWriterCfg};
use crate::pin::PinWrite;
use crate::sipo::{shiftreg_cfg, ControlPinCfg};

verus! {

/// The pins of the demo board. The serial lines are GPIO20 for the
/// horizontal address, GPIO48 for the vertical address and GPIO0 for the
/// colour. The three chains share one control group: shift clock on GPIO21,
/// latch on GPIO39, and an active-low clear on GPIO40.
pub open spec fn def_pinout() -> BwWriterCfg {
    BwWriterCfg {
        h_ser: 20,
        v_ser: 48,
        bw_ser: 0,
        ctrl: ControlPinCfg { srclk: 21, rclk: Some(39), srclr: Some(40), clr_active_low: true },
    }
}

/// Builds the black-and-white pixel writer of the demo board: the default
/// writer on the pins of [`def_pinout`]. The latch rests low and the clear
/// line rests high; nothing is queued and no pulse is given.
pub fn construct_bw_pixel_writer_def_pinout() -> (writer: BwPixelWriter)
    ensures
        writer@.lane_pins == seq![0u8, 48u8, 20u8],
        writer@.lane_pins == seq![def_pinout().bw_ser, def_pinout().v_ser, def_pinout().h_ser],
        writer@.lane_levels == seq![false, false, false],
        writer@.pending == Seq::<PinWrite>::empty(),
        forall|l: int|
            0 <= l < 3 ==> (#[trigger] writer.p_sipo_bank.lanes[l]).output_cfg() == shiftreg_cfg(),
        writer.p_sipo_bank.ctrl.shift.pin_id() == 21,
        writer.p_sipo_bank.ctrl.shift.output_cfg() == shiftreg_cfg(),
        writer.p_sipo_bank.ctrl.latch_pin() == Some(39u8),
        writer.p_sipo_bank.ctrl.latch matches Some(line) && line.output_cfg() == shiftreg_cfg(),
        writer.p_sipo_bank.ctrl.clear_pin() == Some(40u8),
        writer.p_sipo_bank.ctrl.clear matches Some(line) && line.is_active_low()
            && line.output_cfg() == shiftreg_cfg(),
{
    construct_default_bw_pixel_writer(
        BwWriterCfg {
            h_ser: 20,
            v_ser: 48,
            bw_ser: 0,
            ctrl: ControlPinCfg {
                srclk: 21,
                rclk: Some(39),
                srclr: Some(40),
                clr_active_low: true,
            },
        },
    )
}

/// Number of rows that are filled.
pub const PURE_COLOR_ROWS: u8 = 151;

/// Number of columns that are filled.
pub const PURE_COLOR_COLS: u8 = 201;

/// Offers every location of a 201 by 151 screen to the writer with
/// `brightness`, row by row from row 0, each row from column 0.
pub fn display_pure_color<PW: PixelWriter<u8, u8>>(brightness: u8, writer: &mut PW)
    ensures
        final(writer).addr_bounds() == old(writer).addr_bounds(),
        final(writer).color_bounds() == old(writer).color_bounds(),
        final(writer)@ == block_offered::<u8, u8, PW>(
            old(writer)@,
            old(writer).addr_bounds(),
            old(writer).color_bounds(),
            true,
            0,
            PURE_COLOR_ROWS as nat,
            0,
            PURE_COLOR_COLS as nat,
            brightness as int,
        ),
{
    let ghost before = writer@;
    let ghost addr = writer.addr_bounds();
    let ghost colors = writer.color_bounds();
    let mut v: u8 = 0;
    while v < PURE_COLOR_ROWS
        invariant
            v <= PURE_COLOR_ROWS,
            writer.addr_bounds() == addr,
            writer.color_bounds() == colors,
            writer@ == block_offered::<u8, u8, PW>(
                before,
                addr,
                colors,
                true,
                0,
                v as nat,
                0,
                PURE_COLOR_COLS as nat,
                brightness as int,
            ),
        decreases PURE_COLOR_ROWS - v,
    {
        let ghost rows_done = writer@;
        let mut h: u8 = 0;
        while h < PURE_COLOR_COLS
            invariant
                h <= PURE_COLOR_COLS,
                v < PURE_COLOR_ROWS,
                writer.addr_bounds() == addr,
                writer.color_bounds() == colors,
                writer@ == line_offered::<u8, u8, PW>(
                    rows_done,
                    addr,
                    colors,
                    true,
                    v as int,
                    0,
                    h as nat,
                    brightness as int,
                ),
            decreases PURE_COLOR_COLS - h,
        {
            writer.write_pixel(h, v, brightness);
            h += 1;
        }
        v += 1;
    }
}

} // verus!
