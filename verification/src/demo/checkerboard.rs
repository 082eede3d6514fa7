//! A checkerboard whose two shades fade into each other.
//!
//! Each step paints the board into the inactive half of a double-buffered
//! framebuffer, presents it, and moves the shade of the dark squares one
//! notch along a triangle wave between 0 and [`MAX_LUM4`].

use vstd::prelude::*;
use crate::display::backend::bus_dac::{DoubleFb, FrameBuf, FB_HEIGHT, FB_WIDTH};

verus! {

/// Peak brightness of a 4-bit sample.
pub const MAX_LUM4: i8 = 15;

/// Side of one square of the board, in pixels.
pub const CELL_SIZE: usize = 20;

/// The shade of the cell at column `x` of row `y`: the dark shade where the
/// square it lies in has an even sum of coordinates, the light shade
/// elsewhere.
pub open spec fn checker_cell(x: int, y: int, offset: int, lum_black4: u8, lum_white4: u8) -> u8 {
    if ((x + offset) / (CELL_SIZE as int) + (y + offset) / (CELL_SIZE as int)) % 2 == 0 {
        lum_black4
    } else {
        lum_white4
    }
}

/// Whether `frame` holds the checkerboard with the given shades.
pub open spec fn is_checkerboard(frame: FrameBuf, offset: int, lum_black4: u8, lum_white4: u8)
    -> bool {
    forall|x: int, y: int|
        0 <= x < FB_WIDTH && 0 <= y < FB_HEIGHT ==> #[trigger] frame[y][x] == checker_cell(
            x,
            y,
            offset,
            lum_black4,
            lum_white4,
        )
}

/// Paints the checkerboard over the whole frame.
pub fn paint_checkerboard(frame: &mut FrameBuf, offset: usize, lum_black4: u8, lum_white4: u8)
    requires
        offset <= usize::MAX - FB_WIDTH,
    ensures
        is_checkerboard(*final(frame), offset as int, lum_black4, lum_white4),
{
    let mut y: usize = 0;
    while y < FB_HEIGHT
        invariant
            y <= FB_HEIGHT,
            offset <= usize::MAX - FB_WIDTH,
            forall|x: int, r: int|
                0 <= x < FB_WIDTH && 0 <= r < y ==> #[trigger] frame[r][x] == checker_cell(
                    x,
                    r,
                    offset as int,
                    lum_black4,
                    lum_white4,
                ),
        decreases FB_HEIGHT - y,
    {
        let mut x: usize = 0;
        while x < FB_WIDTH
            invariant
                x <= FB_WIDTH,
                y < FB_HEIGHT,
                offset <= usize::MAX - FB_WIDTH,
                forall|c: int, r: int|
                    0 <= c < FB_WIDTH && 0 <= r < y ==> #[trigger] frame[r][c] == checker_cell(
                        c,
                        r,
                        offset as int,
                        lum_black4,
                        lum_white4,
                    ),
                forall|c: int|
                    0 <= c < x ==> #[trigger] frame[y as int][c] == checker_cell(
                        c,
                        y as int,
                        offset as int,
                        lum_black4,
                        lum_white4,
                    ),
            decreases FB_WIDTH - x,
        {
            let squares: usize = (x + offset) / CELL_SIZE + (y + offset) / CELL_SIZE;
            assert(squares & 1 == squares % 2) by (bit_vector);
            let is_black_square: bool = squares & 1 == 0;
            frame[y][x] = if is_black_square {
                lum_black4
            } else {
                lum_white4
            };
            x += 1;
        }
        y += 1;
    }
}

/// The shade of the dark squares and the direction in which it moves.
pub struct CheckerboardFade {
    lum4: i8,
    dir: i8,
}

/// The shade and direction that follow `(lum4, dir)` on the triangle wave.
pub open spec fn fade_next(lum4: int, dir: int) -> (int, int) {
    if lum4 + dir >= MAX_LUM4 {
        (MAX_LUM4 as int, -1)
    } else if lum4 + dir <= 0 {
        (0, 1)
    } else {
        (lum4 + dir, dir)
    }
}

impl CheckerboardFade {
    #[verifier::type_invariant]
    spec fn on_the_wave(&self) -> bool {
        0 <= self.lum4 <= MAX_LUM4 && (self.dir == 1 || self.dir == -1)
    }

    /// Shade of the dark squares, 0 to 15.
    pub closed spec fn shade(&self) -> int {
        self.lum4 as int
    }

    /// Direction of the fade: 1 towards bright, -1 towards dark.
    pub closed spec fn direction(&self) -> int {
        self.dir as int
    }

    /// The fade at its start: dark squares black, fading in.
    pub fn new() -> (fade: Self)
        ensures
            fade.shade() == 0,
            fade.direction() == 1,
    {
        CheckerboardFade { lum4: 0, dir: 1 }
    }

    /// Shade of the dark squares.
    pub fn lum_black4(&self) -> (lum: u8)
        ensures
            lum == self.shade(),
            lum <= 15,
    {
        proof {
            use_type_invariant(self);
        }
        self.lum4 as u8
    }

    /// Shade of the light squares: as far below the peak as the dark shade is
    /// above zero.
    pub fn lum_white4(&self) -> (lum: u8)
        ensures
            lum == MAX_LUM4 - self.shade(),
    {
        (MAX_LUM4 as u8) - self.lum_black4()
    }

    /// Paints the board with the current shades over the whole frame.
    pub fn paint(&self, frame: &mut FrameBuf)
        ensures
            is_checkerboard(
                *final(frame),
                0,
                self.shade() as u8,
                (MAX_LUM4 - self.shade()) as u8,
            ),
    {
        paint_checkerboard(frame, 0, self.lum_black4(), self.lum_white4());
    }

    /// Moves the shade one notch; at either end of the range the direction
    /// turns round.
    pub fn advance(&mut self)
        ensures
            (final(self).shade(), final(self).direction()) == fade_next(
                old(self).shade(),
                old(self).direction(),
            ),
    {
        proof {
            use_type_invariant(&*self);
        }
        let moved: i8 = self.lum4 + self.dir;
        if moved >= MAX_LUM4 {
            self.lum4 = MAX_LUM4;
            self.dir = -1;
        } else if moved <= 0 {
            self.lum4 = 0;
            self.dir = 1;
        } else {
            self.lum4 = moved;
        }
    }
}

/// One step of the animation: paints the board with the current shades into
/// the inactive half, presents it, and moves the fade on. The half that was
/// shown before becomes the inactive one.
pub fn checkerboard_fade_step(fb: &mut DoubleFb, fade: &mut CheckerboardFade)
    ensures
        is_checkerboard(
            final(fb).active_view(),
            0,
            old(fade).shade() as u8,
            (MAX_LUM4 - old(fade).shade()) as u8,
        ),
        final(fb).inactive_view() == old(fb).active_view(),
        final(fb).active_slot() == 1 - old(fb).active_slot(),
        (final(fade).shade(), final(fade).direction()) == fade_next(
            old(fade).shade(),
            old(fade).direction(),
        ),
{
    let lum_black4: u8 = fade.lum_black4();
    let lum_white4: u8 = fade.lum_white4();
    let paint = |frame: &mut FrameBuf|
        ensures
            is_checkerboard(*final(frame), 0, lum_black4, lum_white4),
        {
            paint_checkerboard(frame, 0, lum_black4, lum_white4);
        };
    fb.with_inactive(paint);
    fb.swap();
    fade.advance();
}

} // verus!
