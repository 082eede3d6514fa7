//! Pixel writer that drives the display through shift registers.
//!
//! Three chains of one register each hang on one control group: lane 0
//! carries the colour, lane 1 the vertical address and lane 2 the horizontal
//! address. Every accepted pixel is one complete bus transaction: the three
//! bytes are shifted in lockstep and one latch pulse puts them on the
//! outputs together. The pin writes of the transactions queue up in
//! `pending` until the hardware layer takes them.
//!
//! A pixel outside the declared bounds is rejected: nothing is queued.

use vstd::prelude::*;
use crate::bits::bit_at;
use crate::display::pix_writer::PixelWriter;
use crate::pin::PinWrite;
use crate::shift_register::{bank_pins_distinct, chip_byte, lemma_bank_write_exact, run, wiring_of,
    ChainState};
use crate::sipo::{frame_rows, lemma_shift_wave_len, shift_wave, shiftreg_cfg, ControlGroup, ControlPinCfg, ParallelBank,
    SerLane};

verus! {

/// Black-and-white pixel writer with 8-bit horizontal and vertical addresses
/// and one 8-bit colour channel.
pub struct BwPixelWriter8h8v1ch8 {
    pub p_sipo_bank: ParallelBank<3, 1>,
    /// Pin writes of the transactions that have not been put on the wire yet.
    pub pending: Vec<PinWrite>,
}

/// The pins of a shift-register display.
pub struct VgaHwResources {
    pub rclk: u8,
    pub srclk: u8,
    /// Clear line, active-low.
    pub srclr_al: u8,
    /// Serial line of the colour chain.
    pub data_ser: u8,
    /// Serial line of the vertical address chain.
    pub i_addr_ser: u8,
    /// Serial line of the horizontal address chain.
    pub j_addr_ser: u8,
}

/// What a shift-register writer holds: its wiring, the levels of its three
/// serial lines and the queued pin writes.
pub struct SipoWriterView {
    pub lane_pins: Seq<u8>,
    pub clk: u8,
    pub latch_wave: Seq<PinWrite>,
    pub lane_levels: Seq<bool>,
    pub pending: Seq<PinWrite>,
}

/// The frames of one pixel: colour on lane 0, vertical address on lane 1,
/// horizontal address on lane 2.
pub open spec fn pixel_frames(h: int, v: int, color: int) -> Seq<Seq<u8>> {
    seq![seq![color as u8], seq![v as u8], seq![h as u8]]
}

/// The pin writes of the transaction of one pixel: eight ticks that shift
/// the three bytes in lockstep, then one latch pulse.
pub open spec fn pixel_wave(view: SipoWriterView, h: int, v: int, color: int) -> Seq<PinWrite> {
    shift_wave(view.lane_pins, view.clk, pixel_frames(h, v, color), 8) + view.latch_wave
}

impl View for BwPixelWriter8h8v1ch8 {
    type V = SipoWriterView;

    open spec fn view(&self) -> SipoWriterView {
        SipoWriterView {
            lane_pins: self.p_sipo_bank.lane_pins(),
            clk: self.p_sipo_bank.ctrl.shift.pin_id(),
            latch_wave: self.p_sipo_bank.ctrl.latch_wave(),
            lane_levels: Seq::new(3, |l: int| self.p_sipo_bank.lanes[l].driven()),
            pending: self.pending@,
        }
    }
}

impl BwPixelWriter8h8v1ch8 {
    /// Builds the bank from its pins: a control group with latch and
    /// active-low clear, and the three lanes in the order colour, vertical
    /// address, horizontal address. Nothing is queued.
    pub fn from_resources(res: VgaHwResources) -> (writer: BwPixelWriter8h8v1ch8)
        ensures
            writer@.lane_pins == seq![res.data_ser, res.i_addr_ser, res.j_addr_ser],
            writer@.lane_levels == seq![false, false, false],
            writer@.pending == Seq::<PinWrite>::empty(),
            forall|l: int|
                0 <= l < 3 ==> (#[trigger] writer.p_sipo_bank.lanes[l]).output_cfg()
                    == shiftreg_cfg(),
            writer.p_sipo_bank.ctrl.shift.pin_id() == res.srclk,
            writer.p_sipo_bank.ctrl.shift.output_cfg() == shiftreg_cfg(),
            writer.p_sipo_bank.ctrl.latch matches Some(line) && line.pin_id() == res.rclk
                && line.output_cfg() == shiftreg_cfg(),
            writer.p_sipo_bank.ctrl.clear matches Some(line) && line.pin_id() == res.srclr_al
                && line.is_active_low() && line.output_cfg() == shiftreg_cfg(),
    {
        let control_pin_cfg = ControlPinCfg {
            srclk: res.srclk,
            rclk: Some(res.rclk),
            srclr: Some(res.srclr_al),
            clr_active_low: true,
        };
        let control_group = ControlGroup::from_cfg(control_pin_cfg);
        let data_lane = SerLane::from_pin(res.data_ser);
        let i_addr_lane = SerLane::from_pin(res.i_addr_ser);
        let j_addr_lane = SerLane::from_pin(res.j_addr_ser);
        let p_sipo_bank = ParallelBank::new([data_lane, i_addr_lane, j_addr_lane], control_group);
        let writer = BwPixelWriter8h8v1ch8 { p_sipo_bank, pending: Vec::new() };
        writer
    }

    /// Hands over the queued pin writes, oldest first, and empties the queue.
    pub fn take_pending(&mut self) -> (wave: Vec<PinWrite>)
        ensures
            wave@ == old(self)@.pending,
            final(self)@ == (SipoWriterView { pending: Seq::empty(), ..old(self)@ }),
            final(self).p_sipo_bank == old(self).p_sipo_bank,
    {
        let mut wave: Vec<PinWrite> = Vec::new();
        wave.append(&mut self.pending);
        wave
    }
}

impl PixelWriter<u8, u8> for BwPixelWriter8h8v1ch8 {
    open spec fn addr_bounds(&self) -> ((u8, u8), (u8, u8)) {
        ((0, 150), (0, 200))
    }

    open spec fn color_bounds(&self) -> (u8, u8) {
        (0, 255)
    }

    open spec fn pixel_written(before: SipoWriterView, h: int, v: int, color: int)
        -> SipoWriterView {
        SipoWriterView {
            lane_levels: seq![
                bit_at(color as u8 as nat, 0),
                bit_at(v as u8 as nat, 0),
                bit_at(h as u8 as nat, 0),
            ],
            pending: before.pending + pixel_wave(before, h, v, color),
            ..before
        }
    }

    /// Queues the transaction of one pixel: the colour and the two addresses
    /// are shifted in lockstep and latched once.
    fn write_pixel(&mut self, h: u8, v: u8, color: u8)
        ensures
            final(self).p_sipo_bank.same_wiring(&old(self).p_sipo_bank),
    {
        let ((v_min, v_max), (h_min, h_max)) = self.addr_range();
        if v_min <= v && v <= v_max && h_min <= h && h <= h_max {
            let frame: [[u8; 1]; 3] = [[color], [v], [h]];
            assert(frame_rows(frame) =~= pixel_frames(h as int, v as int, color as int)) by {
                assert(frame[0]@ =~= seq![color]);
                assert(frame[1]@ =~= seq![v]);
                assert(frame[2]@ =~= seq![h]);
            }
            let ghost before = self@;
            let mut wave = self.p_sipo_bank.write_exact(frame);
            self.pending.append(&mut wave);
            assert(self.p_sipo_bank.lane_pins() =~= before.lane_pins);
            assert(self@.lane_levels =~= seq![
                bit_at(color as nat, 0),
                bit_at(v as nat, 0),
                bit_at(h as nat, 0),
            ]);
        }
    }

    /// Rows 0 to 150, columns 0 to 200.
    #[inline(always)]
    fn addr_range(&self) -> (bounds: ((u8, u8), (u8, u8)))
        ensures
            bounds == ((0u8, 150u8), (0u8, 200u8)),
    {
        ((0, 150), (0, 200))
    }

    /// Every value of a byte.
    #[inline(always)]
    fn color_range(&self) -> (bounds: (u8, u8))
        ensures
            bounds == (0u8, 255u8),
    {
        (0, 255)
    }
}

/// The transaction of one pixel is 42 pin writes where a latch line is wired:
/// eight ticks of three data writes and one clock pulse each, then the latch
/// pulse.
pub proof fn lemma_pixel_wave_len(writer: BwPixelWriter8h8v1ch8, h: int, v: int, color: int)
    requires
        writer.p_sipo_bank.ctrl.latch is Some,
    ensures
        pixel_wave(writer@, h, v, color).len() == 8 * (3 + 2) + 2,
{
    lemma_shift_wave_len(writer@.lane_pins, writer@.clk, pixel_frames(h, v, color), 8);
}

/// What the transaction of one pixel does to the chain on any of the three
/// lanes: nothing shows while the bytes are shifted, and after the one latch
/// pulse the chain on lane 0 shows the colour, that on lane 1 the vertical
/// address and that on lane 2 the horizontal address.
pub proof fn lemma_pixel_reaches_outputs(
    writer: BwPixelWriter8h8v1ch8,
    h: u8,
    v: u8,
    color: u8,
    lane: int,
    s: ChainState,
)
    requires
        0 <= lane < 3,
        bank_pins_distinct(writer.p_sipo_bank),
        writer.p_sipo_bank.ctrl.latch is Some,
        s.wf(1),
        s.at_rest(wiring_of(writer.p_sipo_bank.lanes[lane].pin_id(), writer.p_sipo_bank.ctrl)),
    ensures
        ({
            let wiring = wiring_of(
                writer.p_sipo_bank.lanes[lane].pin_id(),
                writer.p_sipo_bank.ctrl,
            );
            let latched = run(wiring, s, pixel_wave(writer@, h as int, v as int, color as int));
            &&& latched.wf(1)
            &&& latched.at_rest(wiring)
            &&& chip_byte(latched.outputs, 0) == pixel_frames(
                h as int,
                v as int,
                color as int,
            )[lane][0]
        }),
{
    let frame: [[u8; 1]; 3] = [[color], [v], [h]];
    assert(frame_rows(frame) =~= pixel_frames(h as int, v as int, color as int)) by {
        assert(frame[0]@ =~= seq![color]);
        assert(frame[1]@ =~= seq![v]);
        assert(frame[2]@ =~= seq![h]);
    }
    lemma_bank_write_exact(writer.p_sipo_bank, frame, lane, s);
    assert(frame[lane][1 - 1 - 0] == pixel_frames(h as int, v as int, color as int)[lane][0]);
}

} // verus!
