//! The pixel-write contract that every display backend meets.
//!
//! A location is given by its horizontal address `h` (the column) and its
//! vertical address `v` (the row). A writer declares the inclusive bounds of
//! the rows and columns it can address and of the colours it can show.
//! Whatever lies outside these bounds is rejected: such a write changes
//! nothing.

use vstd::prelude::*;
use crate::utils::PrimInt;

verus! {

/// Whether `x` lies within the inclusive bounds `bounds`.
pub open spec fn within<T: PrimInt>(bounds: (T, T), x: int) -> bool {
    bounds.0.as_int() <= x <= bounds.1.as_int()
}

/// Whether a pixel lies within the address and colour bounds of a writer.
/// `addr` holds the bounds of the rows first, then those of the columns.
pub open spec fn pixel_in_range<AddrT: PrimInt, ColorT: PrimInt>(
    addr: ((AddrT, AddrT), (AddrT, AddrT)),
    colors: (ColorT, ColorT),
    h: int,
    v: int,
    color: int,
) -> bool {
    within(addr.0, v) && within(addr.1, h) && within(colors, color)
}

/// A display that takes one pixel at a time. The view of a writer is
/// whatever its pixels end up in: a framebuffer, or the transactions on a
/// wire.
pub trait PixelWriter<AddrT: PrimInt, ColorT: PrimInt>: View + Sized {
    /// Inclusive bounds of the legal addresses: those of the rows, then those
    /// of the columns.
    spec fn addr_bounds(&self) -> ((AddrT, AddrT), (AddrT, AddrT));

    /// Inclusive bounds of the legal colours.
    spec fn color_bounds(&self) -> (ColorT, ColorT);

    /// The view of a writer after it has taken the pixel at column `h` of row
    /// `v`, given its view before. It is asked only of pixels in range.
    spec fn pixel_written(before: Self::V, h: int, v: int, color: int) -> Self::V;

    /// Writes one pixel at column `h` of row `v`. A pixel out of range is
    /// rejected and leaves the writer as it was.
    fn write_pixel(&mut self, h: AddrT, v: AddrT, color: ColorT)
        ensures
            final(self).addr_bounds() == old(self).addr_bounds(),
            final(self).color_bounds() == old(self).color_bounds(),
            final(self)@ == (if pixel_in_range(
                old(self).addr_bounds(),
                old(self).color_bounds(),
                h.as_int(),
                v.as_int(),
                color.as_int(),
            ) {
                Self::pixel_written(old(self)@, h.as_int(), v.as_int(), color.as_int())
            } else {
                old(self)@
            }),
    ;

    /// Inclusive bounds of the legal addresses: `((v_min, v_max), (h_min,
    /// h_max))`.
    fn addr_range(&self) -> (bounds: ((AddrT, AddrT), (AddrT, AddrT)))
        ensures
            bounds == self.addr_bounds(),
    ;

    /// Inclusive bounds of the legal colours: `(min, max)`.
    fn color_range(&self) -> (bounds: (ColorT, ColorT))
        ensures
            bounds == self.color_bounds(),
    ;
}

/// The view of a writer after a pixel was offered to it: written where it
/// lies in range, rejected otherwise.
pub open spec fn pixel_offered<AddrT: PrimInt, ColorT: PrimInt, PW: PixelWriter<AddrT, ColorT>>(
    before: PW::V,
    addr: ((AddrT, AddrT), (AddrT, AddrT)),
    colors: (ColorT, ColorT),
    h: int,
    v: int,
    color: int,
) -> PW::V {
    if pixel_in_range(addr, colors, h, v, color) {
        PW::pixel_written(before, h, v, color)
    } else {
        before
    }
}

} // verus!
