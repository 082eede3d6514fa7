//! Pixel writer that is scanned out over parallel buses.
//!
//! The drawing side writes into the inactive half of a double-buffered
//! framebuffer; nothing reaches the wire at that time. The scanning side
//! samples the horizontal and vertical address buses that external hardware
//! drives, looks the addressed cell up in the active half and drives it on
//! the data bus. `present_frame` publishes a finished frame by swapping the
//! halves.
//!
//! Addresses outside the framebuffer are rejected by `write_pixel` and
//! skipped by `scan_step`: the data bus then keeps what it carried.

use vstd::prelude::*;
use crate::bits::{bits_of, pack_bits};
use crate::display::backend::utils::DoubleBuffer;
use crate::display::drawer::{block_offered, line_offered};
use crate::display::pix_writer::PixelWriter;
use crate::par_data_rw::{bus_wave, ParDataReader, ParDataWriter};
use crate::pin::{default_input_cfg, default_output_cfg, InputCfg, Level, OutputCfg, PinWrite};

verus! {

pub const FB_WIDTH: usize = 201;

pub const FB_HEIGHT: usize = 151;

/// One frame: `FB_HEIGHT` rows of `FB_WIDTH` samples, indexed row first.
pub type FrameBuf = [[u8; FB_WIDTH]; FB_HEIGHT];

pub type DoubleFb = DoubleBuffer<FrameBuf>;

/// The rows of a frame as sequences.
pub open spec fn frame_view(frame: FrameBuf) -> Seq<Seq<u8>> {
    Seq::new(FB_HEIGHT as nat, |v: int| frame[v]@)
}

/// A clone of a frame is that frame.
pub proof fn lemma_frame_clone(a: FrameBuf, b: FrameBuf)
    requires
        cloned(a, b),
    ensures
        a == b,
{
    assert forall|v: int| 0 <= v < FB_HEIGHT implies a[v] == b[v] by {
    }
}

/// A double-buffered framebuffer with both halves dark.
pub fn init_double_fb() -> (fb: DoubleFb)
    ensures
        fb.active_view() == fb.inactive_view(),
        forall|h: int, v: int| in_frame(h, v) ==> #[trigger] fb.active_view()[v][h] == 0,
        fb.active_slot() == 0,
{
    let row: [u8; FB_WIDTH] = [0u8; FB_WIDTH];
    let dark: FrameBuf = [row; FB_HEIGHT];
    let fb = DoubleFb::new(dark);
    proof {
        lemma_frame_clone(dark, fb.active_view());
    }
    fb
}

/// The cell at column `h` of row `v` of a frame.
pub open spec fn cell_of(frame: FrameBuf, h: int, v: int) -> u8 {
    frame[v][h]
}

/// `after` is `before` with the cell at column `h` of row `v` set to `color`.
pub open spec fn cell_set(before: FrameBuf, after: FrameBuf, h: int, v: int, color: u8) -> bool {
    &&& after[v]@ == before[v]@.update(h, color)
    &&& forall|r: int| 0 <= r < FB_HEIGHT && r != v ==> after[r] == before[r]
}

/// What a bus-scanned writer holds: the selector of the active half (0 or
/// 1), both halves of the framebuffer, the address samples of the last scan
/// step and the levels on the data bus.
pub struct BusScanView {
    pub selector: int,
    pub active: Seq<Seq<u8>>,
    pub inactive: Seq<Seq<u8>>,
    pub h_sample: Seq<bool>,
    pub v_sample: Seq<bool>,
    pub data_levels: Seq<bool>,
}

/// Whether column `h` of row `v` lies in the framebuffer.
pub open spec fn in_frame(h: int, v: int) -> bool {
    0 <= h < FB_WIDTH && 0 <= v < FB_HEIGHT
}

/// A frame with the cell at column `h` of row `v` set to `color`.
pub open spec fn with_cell(frame: Seq<Seq<u8>>, h: int, v: int, color: u8) -> Seq<Seq<u8>> {
    frame.update(v, frame[v].update(h, color))
}

/// The sample that a scan at the address `(h, v)` finds: the cell of the
/// active half, or nothing where the address lies outside the framebuffer.
pub open spec fn scan_color(view: BusScanView, h: int, v: int) -> Option<u8> {
    if in_frame(h, v) {
        Some(view.active[v][h])
    } else {
        None
    }
}

/// The view after the halves were swapped: the selector has flipped, and
/// with it the roles of the two halves.
pub open spec fn presented(before: BusScanView) -> BusScanView {
    BusScanView {
        selector: 1 - before.selector,
        active: before.inactive,
        inactive: before.active,
        ..before
    }
}

/// The view after one scan step that sampled the given address levels.
pub open spec fn scanned(before: BusScanView, h_levels: Seq<bool>, v_levels: Seq<bool>)
    -> BusScanView {
    BusScanView {
        h_sample: h_levels,
        v_sample: v_levels,
        data_levels: match scan_color(
            before,
            pack_bits(h_levels) as int,
            pack_bits(v_levels) as int,
        ) {
            Some(color) => bits_of(color as nat, 4),
            None => before.data_levels,
        },
        ..before
    }
}

/// The writes that one scan step puts on the data bus: the low four bits of
/// the addressed cell, or nothing where the address lies outside the
/// framebuffer.
pub open spec fn scan_wave(
    data_pins: Seq<u8>,
    before: BusScanView,
    h_levels: Seq<bool>,
    v_levels: Seq<bool>,
) -> Seq<PinWrite> {
    match scan_color(before, pack_bits(h_levels) as int, pack_bits(v_levels) as int) {
        Some(color) => bus_wave(data_pins, bits_of(color as nat, 4)),
        None => Seq::empty(),
    }
}

/// Whether the data lines start high: only where a high level was asked for.
pub open spec fn level_or_low(init_level: Option<Level>) -> bool {
    match init_level {
        Some(level) => level.as_bool(),
        None => false,
    }
}

/// Black-and-white pixel writer with 8-bit horizontal and vertical address
/// buses and one 4-bit data channel.
pub struct BwPixelWriter8h8v1ch4 {
    pub haddr_reader: ParDataReader<8>,
    pub vaddr_reader: ParDataReader<8>,
    pub data_writer: ParDataWriter<4>,
    pub dbf: DoubleFb,
}

/// The pins of a bus-scanned display.
pub struct VgaHwResources<const HADDR_CNT: usize, const VADDR_CNT: usize, const DATA_CNT: usize> {
    pub haddr_pins: [u8; HADDR_CNT],
    pub vaddr_pins: [u8; VADDR_CNT],
    pub data_pins: [u8; DATA_CNT],
}

impl View for BwPixelWriter8h8v1ch4 {
    type V = BusScanView;

    open spec fn view(&self) -> BusScanView {
        BusScanView {
            selector: self.dbf.active_slot(),
            active: frame_view(self.dbf.active_view()),
            inactive: frame_view(self.dbf.inactive_view()),
            h_sample: self.haddr_reader.level_seq(),
            v_sample: self.vaddr_reader.level_seq(),
            data_levels: self.data_writer.level_seq(),
        }
    }
}

impl BwPixelWriter8h8v1ch4 {
    /// The three buses are on the same pins with the same configuration.
    pub open spec fn same_lines(&self, other: &Self) -> bool {
        &&& self.haddr_reader.pin_seq() == other.haddr_reader.pin_seq()
        &&& self.haddr_reader.input_cfg() == other.haddr_reader.input_cfg()
        &&& self.vaddr_reader.pin_seq() == other.vaddr_reader.pin_seq()
        &&& self.vaddr_reader.input_cfg() == other.vaddr_reader.input_cfg()
        &&& self.data_writer.pin_seq() == other.data_writer.pin_seq()
        &&& self.data_writer.output_cfg() == other.data_writer.output_cfg()
    }

    /// A writer from its three buses and its framebuffer.
    pub fn new(
        haddr_reader: ParDataReader<8>,
        vaddr_reader: ParDataReader<8>,
        data_writer: ParDataWriter<4>,
        dbf: DoubleFb,
    ) -> (writer: Self)
        ensures
            writer.haddr_reader == haddr_reader,
            writer.vaddr_reader == vaddr_reader,
            writer.data_writer == data_writer,
            writer.dbf == dbf,
    {
        BwPixelWriter8h8v1ch4 { haddr_reader, vaddr_reader, data_writer, dbf }
    }

    /// Builds the three buses from their pins. A configuration that is not
    /// given is the default one; the data lines start low unless told
    /// otherwise.
    pub fn with_hw_resources(
        res: VgaHwResources<8, 8, 4>,
        dbf: DoubleFb,
        iconf: Option<InputCfg>,
        oconf: Option<OutputCfg>,
        init_level: Option<Level>,
    ) -> (writer: Self)
        ensures
            writer.dbf == dbf,
            writer.haddr_reader.pin_seq() == res.haddr_pins@,
            writer.vaddr_reader.pin_seq() == res.vaddr_pins@,
            writer.data_writer.pin_seq() == res.data_pins@,
            writer.haddr_reader.input_cfg() == writer.vaddr_reader.input_cfg(),
            writer.haddr_reader.input_cfg() == (match iconf {
                Some(cfg) => cfg,
                None => InputCfg { pull: crate::pin::Pull::Floating },
            }),
            writer.data_writer.output_cfg() == (match oconf {
                Some(cfg) => cfg,
                None => OutputCfg {
                    drive_mode: crate::pin::DriveMode::PushPull,
                    pull: crate::pin::Pull::Floating,
                },
            }),
            writer@.h_sample == Seq::new(8, |i: int| false),
            writer@.v_sample == Seq::new(8, |i: int| false),
            writer@.data_levels == Seq::new(4, |i: int| level_or_low(init_level)),
    {
        let iconf = match iconf {
            Some(cfg) => cfg,
            None => default_input_cfg(),
        };
        let oconf = match oconf {
            Some(cfg) => cfg,
            None => default_output_cfg(),
        };
        let first_level = match init_level {
            Some(level) => level,
            None => Level::Low,
        };
        let haddr_reader = ParDataReader::from_pins(res.haddr_pins, iconf);
        let vaddr_reader = ParDataReader::from_pins(res.vaddr_pins, iconf);
        let data_writer = ParDataWriter::from_pins(res.data_pins, oconf, first_level);
        Self::new(haddr_reader, vaddr_reader, data_writer, dbf)
    }

    /// Publishes the frame that was drawn: the inactive half becomes the
    /// active one and is what the scan shows from now on.
    pub fn present_frame(&mut self)
        ensures
            final(self)@ == presented(old(self)@),
            final(self).dbf.active_slot() == 1 - old(self).dbf.active_slot(),
            final(self).same_lines(old(self)),
    {
        self.dbf.swap();
    }

    /// One step of the scan: takes the levels sampled from the horizontal and
    /// the vertical address bus, and drives the addressed cell of the active
    /// half on the data bus. An address outside the framebuffer is skipped:
    /// nothing is driven.
    pub fn scan_step(&mut self, h_levels: [bool; 8], v_levels: [bool; 8]) -> (wave: Vec<PinWrite>)
        ensures
            final(self)@ == scanned(old(self)@, h_levels@, v_levels@),
            wave@ == scan_wave(old(self).data_writer.pin_seq(), old(self)@, h_levels@, v_levels@),
            final(self).dbf.active_slot() == old(self).dbf.active_slot(),
            final(self).same_lines(old(self)),
    {
        self.haddr_reader.sample(h_levels);
        self.vaddr_reader.sample(v_levels);
        let h: usize = self.haddr_reader.read_u8() as usize;
        let v: usize = self.vaddr_reader.read_u8() as usize;
        if h < FB_WIDTH && v < FB_HEIGHT {
            let ghost col = h as int;
            let ghost row = v as int;
            let read_cell = |frame: &FrameBuf| -> (color: u8)
                ensures
                    color == cell_of(*frame, col, row),
                { frame[v][h] };
            let color: u8 = self.dbf.with_active(read_cell);
            let wave = self.data_writer.write_u8(color);
            wave
        } else {
            Vec::new()
        }
    }
}

impl PixelWriter<u8, u8> for BwPixelWriter8h8v1ch4 {
    open spec fn addr_bounds(&self) -> ((u8, u8), (u8, u8)) {
        ((0, 150), (0, 200))
    }

    open spec fn color_bounds(&self) -> (u8, u8) {
        (0, 255)
    }

    open spec fn pixel_written(before: BusScanView, h: int, v: int, color: int) -> BusScanView {
        BusScanView { inactive: with_cell(before.inactive, h, v, color as u8), ..before }
    }

    /// Sets the cell at column `h` of row `v` in the inactive half. The
    /// selector and the active half, and with them what the scan shows, are
    /// not touched.
    fn write_pixel(&mut self, h: u8, v: u8, color: u8)
        ensures
            final(self).dbf.active_slot() == old(self).dbf.active_slot(),
            final(self).same_lines(old(self)),
    {
        if (h as usize) < FB_WIDTH && (v as usize) < FB_HEIGHT {
            let ghost before = self.dbf.inactive_view();
            let ghost col = h as int;
            let ghost row = v as int;
            let col_idx: usize = h as usize;
            let row_idx: usize = v as usize;
            let set_cell = |frame: &mut FrameBuf|
                ensures
                    cell_set(*old(frame), *final(frame), col, row, color),
                {
                    frame[row_idx][col_idx] = color;
                };
            self.dbf.with_inactive(set_cell);
            assert(frame_view(self.dbf.inactive_view()) =~= with_cell(
                frame_view(before),
                h as int,
                v as int,
                color,
            ));
        }
    }

    /// Rows 0 to 150, columns 0 to 200.
    #[inline(always)]
    fn addr_range(&self) -> (bounds: ((u8, u8), (u8, u8)))
        ensures
            bounds == ((0u8, 150u8), (0u8, 200u8)),
    {
        ((0, (FB_HEIGHT - 1) as u8), (0, (FB_WIDTH - 1) as u8))
    }

    /// Every value of a byte.
    #[inline(always)]
    fn color_range(&self) -> (bounds: (u8, u8))
        ensures
            bounds == (0u8, 255u8),
    {
        (0, 255)
    }
}

impl BusScanView {
    /// Both halves have `FB_HEIGHT` rows of `FB_WIDTH` cells, the address
    /// samples have eight levels each and the data bus has four.
    pub open spec fn wf(&self) -> bool {
        &&& self.h_sample.len() == 8
        &&& self.v_sample.len() == 8
        &&& self.data_levels.len() == 4
        &&& self.active.len() == FB_HEIGHT
        &&& self.inactive.len() == FB_HEIGHT
        &&& forall|v: int| 0 <= v < FB_HEIGHT ==> (#[trigger] self.active[v]).len() == FB_WIDTH
        &&& forall|v: int| 0 <= v < FB_HEIGHT ==> (#[trigger] self.inactive[v]).len() == FB_WIDTH
    }
}

/// The view of every writer is well formed.
pub proof fn lemma_view_wf(writer: &BwPixelWriter8h8v1ch4)
    ensures
        writer@.wf(),
{
    writer.haddr_reader.lemma_widths();
    writer.vaddr_reader.lemma_widths();
    writer.data_writer.lemma_widths();
}

/// A pixel that was written is seen by the scan only after the frame was
/// presented, never before: writing it leaves the selector alone and changes
/// what no scan address shows; presenting flips the selector once, and a scan
/// at the pixel's address then shows its colour.
pub proof fn lemma_pixel_shows_after_present(before: BusScanView, h: int, v: int, color: u8)
    requires
        before.wf(),
        in_frame(h, v),
    ensures
        BwPixelWriter8h8v1ch4::pixel_written(before, h, v, color as int).selector
            == before.selector,
        presented(BwPixelWriter8h8v1ch4::pixel_written(before, h, v, color as int)).selector == 1
            - before.selector,
        forall|h2: int, v2: int|
            scan_color(
                BwPixelWriter8h8v1ch4::pixel_written(before, h, v, color as int),
                h2,
                v2,
            ) == scan_color(before, h2, v2),
        scan_color(
            presented(BwPixelWriter8h8v1ch4::pixel_written(before, h, v, color as int)),
            h,
            v,
        ) == Some(color),
{
}

/// A write touches one cell of the inactive half and nothing else.
pub proof fn lemma_pixel_written_cells(before: BusScanView, h: int, v: int, color: u8)
    requires
        before.wf(),
        in_frame(h, v),
    ensures
        ({
            let after = BwPixelWriter8h8v1ch4::pixel_written(before, h, v, color as int);
            &&& after.wf()
            &&& after.selector == before.selector
            &&& after.active == before.active
            &&& after.inactive[v][h] == color
            &&& forall|h2: int, v2: int|
                in_frame(h2, v2) && (h2 != h || v2 != v) ==> #[trigger] after.inactive[v2][h2]
                    == before.inactive[v2][h2]
        }),
{
}

/// Whether the cell at column `h` of row `v` lies on the line of `count` cells
/// that starts at `from` on row or column `fixed`.
pub open spec fn on_line(along_row: bool, fixed: int, from: int, count: nat, h: int, v: int)
    -> bool {
    if along_row {
        v == fixed && from <= h < from + count
    } else {
        h == fixed && from <= v < from + count
    }
}

/// Whether the cell at column `h` of row `v` lies in the block of `lines`
/// lines of `count` cells each that starts with line `first`.
pub open spec fn in_block(
    along_row: bool,
    first: int,
    lines: nat,
    from: int,
    count: nat,
    h: int,
    v: int,
) -> bool {
    if along_row {
        first <= v < first + lines && from <= h < from + count
    } else {
        first <= h < first + lines && from <= v < from + count
    }
}

/// `after` is `before` with `color` in every cell of the inactive half that
/// `covered` holds of, and nothing else changed.
pub open spec fn painted(
    before: BusScanView,
    after: BusScanView,
    covered: spec_fn(int, int) -> bool,
    color: u8,
) -> bool {
    &&& after.wf()
    &&& after.selector == before.selector
    &&& after.active == before.active
    &&& after.h_sample == before.h_sample
    &&& after.v_sample == before.v_sample
    &&& after.data_levels == before.data_levels
    &&& forall|h: int, v: int|
        in_frame(h, v) ==> #[trigger] after.inactive[v][h] == (if covered(h, v) {
            color
        } else {
            before.inactive[v][h]
        })
}

/// The address and colour bounds that every bus-scanned writer declares.
pub open spec fn bus_scan_bounds() -> (((u8, u8), (u8, u8)), (u8, u8)) {
    (((0u8, 150u8), (0u8, 200u8)), (0u8, 255u8))
}

/// Offering a line of pixels to a bus-scanned writer paints the cells of the
/// line that lie in the framebuffer and leaves everything else alone.
pub proof fn lemma_line_offered_paints(
    before: BusScanView,
    along_row: bool,
    fixed: int,
    from: int,
    count: nat,
    color: u8,
)
    requires
        before.wf(),
    ensures
        painted(
            before,
            line_offered::<u8, u8, BwPixelWriter8h8v1ch4>(
                before,
                bus_scan_bounds().0,
                bus_scan_bounds().1,
                along_row,
                fixed,
                from,
                count,
                color as int,
            ),
            |h: int, v: int| on_line(along_row, fixed, from, count, h, v),
            color,
        ),
    decreases count,
{
    if count > 0 {
        lemma_line_offered_paints(before, along_row, fixed, from, (count - 1) as nat, color);
    }
}

/// Offering a block of pixels to a bus-scanned writer paints the cells of the
/// block that lie in the framebuffer and leaves everything else alone. A
/// block that covers the framebuffer, as `fill_screen` offers it, paints all
/// of the inactive half.
pub proof fn lemma_block_offered_paints(
    before: BusScanView,
    along_row: bool,
    first: int,
    lines: nat,
    from: int,
    count: nat,
    color: u8,
)
    requires
        before.wf(),
    ensures
        painted(
            before,
            block_offered::<u8, u8, BwPixelWriter8h8v1ch4>(
                before,
                bus_scan_bounds().0,
                bus_scan_bounds().1,
                along_row,
                first,
                lines,
                from,
                count,
                color as int,
            ),
            |h: int, v: int| in_block(along_row, first, lines, from, count, h, v),
            color,
        ),
    decreases lines,
{
    if lines > 0 {
        let done = block_offered::<u8, u8, BwPixelWriter8h8v1ch4>(
            before,
            bus_scan_bounds().0,
            bus_scan_bounds().1,
            along_row,
            first,
            (lines - 1) as nat,
            from,
            count,
            color as int,
        );
        lemma_block_offered_paints(before, along_row, first, (lines - 1) as nat, from, count, color);
        lemma_line_offered_paints(done, along_row, first + lines - 1, from, count, color);
    }
}

} // verus!
