//! Drawing helpers over any pixel writer.
//!
//! A drawer offers pixels to its writer one by one; what the writer does with
//! each of them is the writer's contract. The functions here say which
//! pixels are offered, and in which order.

use vstd::prelude::*;
use crate::display::pix_writer::{pixel_offered, PixelWriter};
use crate::utils::PrimInt;

verus! {

/// The number of integers from `from` to `to`, both included.
pub open spec fn span_len(from: int, to: int) -> nat {
    if to < from {
        0
    } else {
        (to - from + 1) as nat
    }
}

/// The view of a writer after `count` pixels of one line were offered to it.
/// With `along_row` the line is row `fixed`, walked from column `from`
/// rightwards; without it the line is column `fixed`, walked from row `from`
/// downwards.
pub open spec fn line_offered<AddrT: PrimInt, ColorT: PrimInt, PW: PixelWriter<AddrT, ColorT>>(
    before: PW::V,
    addr: ((AddrT, AddrT), (AddrT, AddrT)),
    colors: (ColorT, ColorT),
    along_row: bool,
    fixed: int,
    from: int,
    count: nat,
    color: int,
) -> PW::V
    decreases count,
{
    if count == 0 {
        before
    } else {
        let sofar = line_offered::<AddrT, ColorT, PW>(
            before,
            addr,
            colors,
            along_row,
            fixed,
            from,
            (count - 1) as nat,
            color,
        );
        let moving = from + count - 1;
        if along_row {
            pixel_offered::<AddrT, ColorT, PW>(sofar, addr, colors, moving, fixed, color)
        } else {
            pixel_offered::<AddrT, ColorT, PW>(sofar, addr, colors, fixed, moving, color)
        }
    }
}

/// The view of a writer after `lines` lines of `count` pixels each were
/// offered to it, one line after the other. With `along_row` the lines are
/// the rows from `first` downwards, each walked from column `from`; without
/// it they are the columns from `first` rightwards, each walked from row
/// `from`.
pub open spec fn block_offered<AddrT: PrimInt, ColorT: PrimInt, PW: PixelWriter<AddrT, ColorT>>(
    before: PW::V,
    addr: ((AddrT, AddrT), (AddrT, AddrT)),
    colors: (ColorT, ColorT),
    along_row: bool,
    first: int,
    lines: nat,
    from: int,
    count: nat,
    color: int,
) -> PW::V
    decreases lines,
{
    if lines == 0 {
        before
    } else {
        line_offered::<AddrT, ColorT, PW>(
            block_offered::<AddrT, ColorT, PW>(
                before,
                addr,
                colors,
                along_row,
                first,
                (lines - 1) as nat,
                from,
                count,
                color,
            ),
            addr,
            colors,
            along_row,
            first + lines - 1,
            from,
            count,
            color,
        )
    }
}

/// Draws on a pixel writer that it borrows for as long as it lives.
pub struct Drawer<'a, AddrT: PrimInt, ColorT: PrimInt, PW> where PW: PixelWriter<AddrT, ColorT> {
    pub pixel_writer: &'a mut PW,
    pub _marker_color: core::marker::PhantomData<ColorT>,
    pub _marker_addr: core::marker::PhantomData<AddrT>,
}

impl<'a, AddrT: PrimInt, ColorT: PrimInt, PW> Drawer<'a, AddrT, ColorT, PW> where
    PW: PixelWriter<AddrT, ColorT>,
 {
    /// The writer that the drawer draws on, as it is now.
    pub open spec fn writer(&self) -> PW {
        *self.pixel_writer
    }

    /// The writer declares the same address and colour bounds as that of
    /// `before`.
    pub open spec fn same_bounds(&self, before: &Self) -> bool {
        &&& self.writer().addr_bounds() == before.writer().addr_bounds()
        &&& self.writer().color_bounds() == before.writer().color_bounds()
    }

    /// A drawer on `pixel_writer`. What the drawer does to the writer is what
    /// the lender finds when the drawer is gone.
    pub fn new(pixel_writer: &'a mut PW) -> (drawer: Self)
        ensures
            drawer.writer() == *old(pixel_writer),
            *final(drawer.pixel_writer) == *final(pixel_writer),
    {
        Drawer {
            pixel_writer,
            _marker_color: core::marker::PhantomData,
            _marker_addr: core::marker::PhantomData,
        }
    }

    /// Offers the pixels of one line from `from` to `to`, both included.
    fn offer_line(&mut self, along_row: bool, fixed: AddrT, from: AddrT, to: AddrT, color: ColorT)
        ensures
            *final(final(self).pixel_writer) == *final(old(self).pixel_writer),
            final(self).same_bounds(old(self)),
            final(self).writer()@ == line_offered::<AddrT, ColorT, PW>(
                old(self).writer()@,
                old(self).writer().addr_bounds(),
                old(self).writer().color_bounds(),
                along_row,
                fixed.as_int(),
                from.as_int(),
                span_len(from.as_int(), to.as_int()),
                color.as_int(),
            ),
    {
        if !from.at_most(to) {
            return ;
        }
        let ghost before = self.writer()@;
        let ghost addr = self.writer().addr_bounds();
        let ghost colors = self.writer().color_bounds();
        let mut at = from;
        loop
            invariant_except_break
                from.as_int() <= at.as_int() <= to.as_int(),
                self.writer()@ == line_offered::<AddrT, ColorT, PW>(
                    before,
                    addr,
                    colors,
                    along_row,
                    fixed.as_int(),
                    from.as_int(),
                    (at.as_int() - from.as_int()) as nat,
                    color.as_int(),
                ),
            invariant
                *final(self.pixel_writer) == *final(old(self).pixel_writer),
                from.as_int() <= to.as_int(),
                self.writer().addr_bounds() == addr,
                self.writer().color_bounds() == colors,
            ensures
                self.writer()@ == line_offered::<AddrT, ColorT, PW>(
                    before,
                    addr,
                    colors,
                    along_row,
                    fixed.as_int(),
                    from.as_int(),
                    span_len(from.as_int(), to.as_int()),
                    color.as_int(),
                ),
            decreases to.as_int() - at.as_int(),
        {
            if along_row {
                self.pixel_writer.write_pixel(at, fixed, color);
            } else {
                self.pixel_writer.write_pixel(fixed, at, color);
            }
            if to.at_most(at) {
                break ;
            }
            proof {
                to.lemma_bounded();
                at.lemma_bounded();
            }
            at = at.checked_add(AddrT::one()).unwrap();
        }
    }

    /// Offers the pixels of the lines from `first` to `last`, both included,
    /// each line from `from` to `to`.
    fn offer_block(
        &mut self,
        along_row: bool,
        first: AddrT,
        last: AddrT,
        from: AddrT,
        to: AddrT,
        color: ColorT,
    )
        ensures
            *final(final(self).pixel_writer) == *final(old(self).pixel_writer),
            final(self).same_bounds(old(self)),
            final(self).writer()@ == block_offered::<AddrT, ColorT, PW>(
                old(self).writer()@,
                old(self).writer().addr_bounds(),
                old(self).writer().color_bounds(),
                along_row,
                first.as_int(),
                span_len(first.as_int(), last.as_int()),
                from.as_int(),
                span_len(from.as_int(), to.as_int()),
                color.as_int(),
            ),
    {
        if !first.at_most(last) {
            return ;
        }
        let ghost before = self.writer()@;
        let ghost addr = self.writer().addr_bounds();
        let ghost colors = self.writer().color_bounds();
        let mut line = first;
        loop
            invariant_except_break
                first.as_int() <= line.as_int() <= last.as_int(),
                self.writer()@ == block_offered::<AddrT, ColorT, PW>(
                    before,
                    addr,
                    colors,
                    along_row,
                    first.as_int(),
                    (line.as_int() - first.as_int()) as nat,
                    from.as_int(),
                    span_len(from.as_int(), to.as_int()),
                    color.as_int(),
                ),
            invariant
                *final(self.pixel_writer) == *final(old(self).pixel_writer),
                first.as_int() <= last.as_int(),
                self.writer().addr_bounds() == addr,
                self.writer().color_bounds() == colors,
            ensures
                self.writer()@ == block_offered::<AddrT, ColorT, PW>(
                    before,
                    addr,
                    colors,
                    along_row,
                    first.as_int(),
                    span_len(first.as_int(), last.as_int()),
                    from.as_int(),
                    span_len(from.as_int(), to.as_int()),
                    color.as_int(),
                ),
            decreases last.as_int() - line.as_int(),
        {
            self.offer_line(along_row, line, from, to, color);
            if last.at_most(line) {
                break ;
            }
            proof {
                last.lemma_bounded();
                line.lemma_bounded();
            }
            line = line.checked_add(AddrT::one()).unwrap();
        }
    }

    /// Offers every legal location to the writer with `color`, row by row
    /// from the first row, each row from its first column.
    pub fn fill_screen(&mut self, color: ColorT)
        ensures
            *final(final(self).pixel_writer) == *final(old(self).pixel_writer),
            final(self).same_bounds(old(self)),
            final(self).writer()@ == ({
                let addr = old(self).writer().addr_bounds();
                block_offered::<AddrT, ColorT, PW>(
                    old(self).writer()@,
                    addr,
                    old(self).writer().color_bounds(),
                    true,
                    addr.0.0.as_int(),
                    span_len(addr.0.0.as_int(), addr.0.1.as_int()),
                    addr.1.0.as_int(),
                    span_len(addr.1.0.as_int(), addr.1.1.as_int()),
                    color.as_int(),
                )
            }),
    {
        let ((v_min, v_max), (h_min, h_max)) = self.pixel_writer.addr_range();
        self.offer_block(true, v_min, v_max, h_min, h_max, color);
    }

    /// Offers every legal column of row `v` to the writer with `color`, from
    /// the first column rightwards. `fill_screen` is this for every legal row
    /// in turn; row by row, a writer that queues its work can be emptied in
    /// between.
    pub fn fill_row(&mut self, v: AddrT, color: ColorT)
        ensures
            *final(final(self).pixel_writer) == *final(old(self).pixel_writer),
            final(self).same_bounds(old(self)),
            final(self).writer()@ == ({
                let addr = old(self).writer().addr_bounds();
                line_offered::<AddrT, ColorT, PW>(
                    old(self).writer()@,
                    addr,
                    old(self).writer().color_bounds(),
                    true,
                    v.as_int(),
                    addr.1.0.as_int(),
                    span_len(addr.1.0.as_int(), addr.1.1.as_int()),
                    color.as_int(),
                )
            }),
    {
        let (_, (h_min, h_max)) = self.pixel_writer.addr_range();
        self.offer_line(true, v, h_min, h_max, color);
    }

    /// Offers a rectangle of `width` columns and `height` rows to the writer
    /// with `color`, its first column at `h_start` and its first row at
    /// `v_start`: column by column, each column from its first row. The last
    /// column is `h_start + width - 1` and the last row `v_start + height -
    /// 1`; both sums must have a value in the address type.
    pub fn draw_rectangle(
        &mut self,
        h_start: AddrT,
        v_start: AddrT,
        width: AddrT,
        height: AddrT,
        color: ColorT,
    )
        requires
            AddrT::min_int() <= h_start.as_int() + width.as_int() - 1,
            h_start.as_int() + width.as_int() <= AddrT::max_int(),
            AddrT::min_int() <= v_start.as_int() + height.as_int() - 1,
            v_start.as_int() + height.as_int() <= AddrT::max_int(),
        ensures
            *final(final(self).pixel_writer) == *final(old(self).pixel_writer),
            final(self).same_bounds(old(self)),
            final(self).writer()@ == block_offered::<AddrT, ColorT, PW>(
                old(self).writer()@,
                old(self).writer().addr_bounds(),
                old(self).writer().color_bounds(),
                false,
                h_start.as_int(),
                span_len(h_start.as_int(), h_start.as_int() + width.as_int() - 1),
                v_start.as_int(),
                span_len(v_start.as_int(), v_start.as_int() + height.as_int() - 1),
                color.as_int(),
            ),
    {
        proof {
            h_start.lemma_bounded();
            v_start.lemma_bounded();
            width.lemma_bounded();
            height.lemma_bounded();
        }
        let h_end = h_start.checked_add(width).unwrap().checked_sub(AddrT::one()).unwrap();
        let v_end = v_start.checked_add(height).unwrap().checked_sub(AddrT::one()).unwrap();
        self.offer_block(false, h_start, h_end, v_start, v_end, color);
    }

    /// Offers one pixel to the writer.
    pub fn write_pixel(&mut self, h: AddrT, v: AddrT, color: ColorT)
        ensures
            *final(final(self).pixel_writer) == *final(old(self).pixel_writer),
            final(self).same_bounds(old(self)),
            final(self).writer()@ == pixel_offered::<AddrT, ColorT, PW>(
                old(self).writer()@,
                old(self).writer().addr_bounds(),
                old(self).writer().color_bounds(),
                h.as_int(),
                v.as_int(),
                color.as_int(),
            ),
    {
        self.pixel_writer.write_pixel(h, v, color);
    }
}

} // verus!
