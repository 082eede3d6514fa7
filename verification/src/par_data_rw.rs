//! Parallel buses over groups of GPIO lines.
//!
//! A bus is an ordered list of `N` lines; line 0 carries the least
//! significant bit, line `N - 1` the most significant one. Reading and
//! driving are instantaneous: nothing is latched.
//!
//! A [`ParDataReader`] decodes the levels that were last sampled from its
//! lines; a [`ParDataWriter`] tracks the levels it drives and hands back the
//! pin writes that put them on the wire.

use vstd::prelude::*;
use vstd::arithmetic::power2::pow2;
use crate::bits::{bits_of, pack_bits, lemma_pack_bits_step, lemma_pack_bits_bound,
    lemma_pack_bits_of, lemma_pack_bits_of_small, bit_of_u8, bit_of_u16, bit_of_u32,
    with_bit_u8, with_bit_u16, with_bit_u32};
use crate::pin::{InputCfg, Level, OutputCfg, PinWrite};

verus! {

/// The narrower of a bus width and a number width.
pub open spec fn usable_width(lines: nat, number_bits: nat) -> nat {
    if lines < number_bits {
        lines
    } else {
        number_bits
    }
}

/// The writes that drive the first `levels.len()` lines of a bus, line 0
/// first.
pub open spec fn bus_wave(pins: Seq<u8>, levels: Seq<bool>) -> Seq<PinWrite> {
    Seq::new(levels.len(), |i: int| PinWrite { pin: pins[i], level: levels[i] })
}

/// Parallel data reader over a group of `N` input lines.
pub struct ParDataReader<const N: usize> {
    pins: [u8; N],
    cfg: InputCfg,
    levels: [bool; N],
}

impl<const N: usize> ParDataReader<N> {
    /// GPIO numbers of the lines, line 0 first.
    pub closed spec fn pin_seq(&self) -> Seq<u8> {
        self.pins@
    }

    /// Levels that were last sampled, line 0 first.
    pub closed spec fn level_seq(&self) -> Seq<bool> {
        self.levels@
    }

    /// Input configuration shared by all lines.
    pub closed spec fn input_cfg(&self) -> InputCfg {
        self.cfg
    }

    /// Both sequences have one entry per line.
    pub proof fn lemma_widths(&self)
        ensures
            self.pin_seq().len() == N,
            self.level_seq().len() == N,
    {
    }

    /// A reader over the given pins; every line reads low until the first
    /// sample is taken.
    pub fn from_pins(pins: [u8; N], input_cfg: InputCfg) -> (reader: Self)
        ensures
            reader.pin_seq() == pins@,
            reader.input_cfg() == input_cfg,
            reader.level_seq() == Seq::new(N as nat, |i: int| false),
    {
        let reader = ParDataReader { pins, cfg: input_cfg, levels: [false; N] };
        reader
    }

    /// Records the levels currently seen on the lines.
    pub fn sample(&mut self, levels: [bool; N])
        ensures
            final(self).level_seq() == levels@,
            final(self).pin_seq() == old(self).pin_seq(),
            final(self).input_cfg() == old(self).input_cfg(),
    {
        self.levels = levels;
    }

    /// The sampled levels as booleans, line 0 first.
    pub fn read_bits(&self) -> (bits: [bool; N])
        ensures
            bits@ == self.level_seq(),
    {
        self.levels
    }

    /// The sampled bus value as `u8`.
    pub fn read_u8(&self) -> (value: u8)
        requires
            N <= 8,
        ensures
            value == pack_bits(self.level_seq()),
    {
        let mut value: u8 = 0;
        let mut i: usize = 0;
        while i < N
            invariant
                i <= N,
                N <= 8,
                value == pack_bits(self.levels@.take(i as int)),
            decreases N - i,
        {
            proof {
                lemma_pack_bits_step(self.levels@, i as int);
                lemma_pack_bits_bound(self.levels@.take(i as int));
            }
            if self.levels[i] {
                value = with_bit_u8(value, i);
            }
            i += 1;
        }
        assert(self.levels@.take(N as int) =~= self.levels@);
        value
    }

    /// The sampled bus value as `u16`.
    pub fn read_u16(&self) -> (value: u16)
        requires
            N <= 16,
        ensures
            value == pack_bits(self.level_seq()),
    {
        let mut value: u16 = 0;
        let mut i: usize = 0;
        while i < N
            invariant
                i <= N,
                N <= 16,
                value == pack_bits(self.levels@.take(i as int)),
            decreases N - i,
        {
            proof {
                lemma_pack_bits_step(self.levels@, i as int);
                lemma_pack_bits_bound(self.levels@.take(i as int));
            }
            if self.levels[i] {
                value = with_bit_u16(value, i);
            }
            i += 1;
        }
        assert(self.levels@.take(N as int) =~= self.levels@);
        value
    }

    /// The sampled bus value as `u32`. Lines from 32 upwards do not fit and
    /// are ignored.
    pub fn read_u32(&self) -> (value: u32)
        ensures
            value == pack_bits(
                self.level_seq().take(usable_width(N as nat, 32) as int),
            ),
    {
        let mut value: u32 = 0;
        let mut i: usize = 0;
        while i < N && i < 32
            invariant
                i <= N,
                i <= 32,
                value == pack_bits(self.levels@.take(i as int)),
            decreases N - i,
        {
            proof {
                lemma_pack_bits_step(self.levels@, i as int);
                lemma_pack_bits_bound(self.levels@.take(i as int));
            }
            if self.levels[i] {
                value = with_bit_u32(value, i);
            }
            i += 1;
        }
        value
    }

    /// The sampled bus value as `u32`; same as [`Self::read_u32`].
    pub fn read(&self) -> (value: u32)
        ensures
            value == pack_bits(
                self.level_seq().take(usable_width(N as nat, 32) as int),
            ),
    {
        self.read_u32()
    }

    /// GPIO numbers of the lines, line 0 first.
    pub fn pins(&self) -> (pins: &[u8; N])
        ensures
            pins@ == self.pin_seq(),
    {
        &self.pins
    }

    /// Input configuration shared by all lines.
    pub fn cfg(&self) -> (cfg: InputCfg)
        ensures
            cfg == self.input_cfg(),
    {
        self.cfg
    }
}

/// The levels of a bus after its first `bits.len()` lines were driven to
/// `bits`; the other lines keep what they had.
pub open spec fn driven_levels(before: Seq<bool>, bits: Seq<bool>) -> Seq<bool> {
    bits + before.skip(bits.len() as int)
}

/// Parallel data writer over a group of `N` output lines.
pub struct ParDataWriter<const N: usize> {
    pins: [u8; N],
    cfg: OutputCfg,
    levels: [bool; N],
}

impl<const N: usize> ParDataWriter<N> {
    /// GPIO numbers of the lines, line 0 first.
    pub closed spec fn pin_seq(&self) -> Seq<u8> {
        self.pins@
    }

    /// Levels currently driven, line 0 first.
    pub closed spec fn level_seq(&self) -> Seq<bool> {
        self.levels@
    }

    /// Output configuration shared by all lines.
    pub closed spec fn output_cfg(&self) -> OutputCfg {
        self.cfg
    }

    /// Both sequences have one entry per line.
    pub proof fn lemma_widths(&self)
        ensures
            self.pin_seq().len() == N,
            self.level_seq().len() == N,
    {
    }

    /// A writer over the given pins, every line at `initial_level`.
    pub fn from_pins(pins: [u8; N], output_cfg: OutputCfg, initial_level: Level) -> (writer: Self)
        ensures
            writer.pin_seq() == pins@,
            writer.output_cfg() == output_cfg,
            writer.level_seq() == Seq::new(N as nat, |i: int| initial_level.as_bool()),
    {
        let high: bool = initial_level.is_high();
        let writer = ParDataWriter { pins, cfg: output_cfg, levels: [high; N] };
        writer
    }

    /// Drives line `idx` to `bit`. An index beyond the bus changes nothing and
    /// yields no write.
    pub fn set_bit(&mut self, idx: usize, bit: bool) -> (write: Option<PinWrite>)
        ensures
            final(self).pin_seq() == old(self).pin_seq(),
            final(self).output_cfg() == old(self).output_cfg(),
            idx >= N ==> write is None && final(self).level_seq() == old(self).level_seq(),
            idx < N ==> write == Some(PinWrite { pin: old(self).pin_seq()[idx as int], level: bit })
                && final(self).level_seq() == old(self).level_seq().update(idx as int, bit),
    {
        if idx >= N {
            return None;
        }
        self.levels[idx] = bit;
        Some(PinWrite { pin: self.pins[idx], level: bit })
    }

    /// Drives every line from a boolean array, line 0 first.
    pub fn write_bits(&mut self, bits: &[bool; N]) -> (wave: Vec<PinWrite>)
        ensures
            wave@ == bus_wave(old(self).pin_seq(), bits@),
            final(self).level_seq() == bits@,
            final(self).pin_seq() == old(self).pin_seq(),
            final(self).output_cfg() == old(self).output_cfg(),
    {
        let ghost pins0 = self.pins@;
        let ghost levels0 = self.levels@;
        let ghost cfg0 = self.cfg;
        let mut wave: Vec<PinWrite> = Vec::new();
        let mut i: usize = 0;
        while i < N
            invariant
                i <= N,
                self.pins@ == pins0,
                self.cfg == cfg0,
                levels0.len() == N,
                self.levels@ =~= driven_levels(levels0, bits@.take(i as int)),
                wave@ =~= bus_wave(pins0, bits@.take(i as int)),
            decreases N - i,
        {
            let write = self.set_bit(i, bits[i]);
            wave.push(write.unwrap());
            i += 1;
        }
        wave
    }

    /// Drives the bus from a `u8`: line `i` gets bit `i`.
    pub fn write_u8(&mut self, value: u8) -> (wave: Vec<PinWrite>)
        requires
            N <= 8,
        ensures
            wave@ == bus_wave(old(self).pin_seq(), bits_of(value as nat, N as nat)),
            final(self).level_seq() == bits_of(value as nat, N as nat),
            final(self).pin_seq() == old(self).pin_seq(),
            final(self).output_cfg() == old(self).output_cfg(),
    {
        let ghost pins0 = self.pins@;
        let ghost levels0 = self.levels@;
        let ghost cfg0 = self.cfg;
        let mut wave: Vec<PinWrite> = Vec::new();
        let mut i: usize = 0;
        while i < N
            invariant
                i <= N,
                N <= 8,
                self.pins@ == pins0,
                self.cfg == cfg0,
                levels0.len() == N,
                self.levels@ =~= driven_levels(levels0, bits_of(value as nat, i as nat)),
                wave@ =~= bus_wave(pins0, bits_of(value as nat, i as nat)),
            decreases N - i,
        {
            let bit: bool = bit_of_u8(value, i);
            let write = self.set_bit(i, bit);
            wave.push(write.unwrap());
            i += 1;
        }
        wave
    }

    /// Drives the bus from a `u16`: line `i` gets bit `i`.
    pub fn write_u16(&mut self, value: u16) -> (wave: Vec<PinWrite>)
        requires
            N <= 16,
        ensures
            wave@ == bus_wave(old(self).pin_seq(), bits_of(value as nat, N as nat)),
            final(self).level_seq() == bits_of(value as nat, N as nat),
            final(self).pin_seq() == old(self).pin_seq(),
            final(self).output_cfg() == old(self).output_cfg(),
    {
        let ghost pins0 = self.pins@;
        let ghost levels0 = self.levels@;
        let ghost cfg0 = self.cfg;
        let mut wave: Vec<PinWrite> = Vec::new();
        let mut i: usize = 0;
        while i < N
            invariant
                i <= N,
                N <= 16,
                self.pins@ == pins0,
                self.cfg == cfg0,
                levels0.len() == N,
                self.levels@ =~= driven_levels(levels0, bits_of(value as nat, i as nat)),
                wave@ =~= bus_wave(pins0, bits_of(value as nat, i as nat)),
            decreases N - i,
        {
            let bit: bool = bit_of_u16(value, i);
            let write = self.set_bit(i, bit);
            wave.push(write.unwrap());
            i += 1;
        }
        wave
    }

    /// Drives the bus from a `u32`: line `i` gets bit `i`. Lines from 32
    /// upwards have no bit to take and are left as they are.
    pub fn write_u32(&mut self, value: u32) -> (wave: Vec<PinWrite>)
        ensures
            wave@ == bus_wave(
                old(self).pin_seq(),
                bits_of(value as nat, usable_width(N as nat, 32)),
            ),
            final(self).level_seq() == driven_levels(
                old(self).level_seq(),
                bits_of(value as nat, usable_width(N as nat, 32)),
            ),
            final(self).pin_seq() == old(self).pin_seq(),
            final(self).output_cfg() == old(self).output_cfg(),
    {
        let ghost pins0 = self.pins@;
        let ghost levels0 = self.levels@;
        let ghost cfg0 = self.cfg;
        let mut wave: Vec<PinWrite> = Vec::new();
        let mut i: usize = 0;
        while i < N && i < 32
            invariant
                i <= N,
                i <= 32,
                self.pins@ == pins0,
                self.cfg == cfg0,
                levels0.len() == N,
                self.levels@ =~= driven_levels(levels0, bits_of(value as nat, i as nat)),
                wave@ =~= bus_wave(pins0, bits_of(value as nat, i as nat)),
            decreases N - i,
        {
            let bit: bool = bit_of_u32(value, i);
            let write = self.set_bit(i, bit);
            wave.push(write.unwrap());
            i += 1;
        }
        wave
    }

    /// Drives the bus from a `u32`; same as [`Self::write_u32`].
    pub fn write(&mut self, value: u32) -> (wave: Vec<PinWrite>)
        ensures
            wave@ == bus_wave(
                old(self).pin_seq(),
                bits_of(value as nat, usable_width(N as nat, 32)),
            ),
            final(self).level_seq() == driven_levels(
                old(self).level_seq(),
                bits_of(value as nat, usable_width(N as nat, 32)),
            ),
            final(self).pin_seq() == old(self).pin_seq(),
            final(self).output_cfg() == old(self).output_cfg(),
    {
        self.write_u32(value)
    }

    /// GPIO numbers of the lines, line 0 first.
    pub fn pins(&self) -> (pins: &[u8; N])
        ensures
            pins@ == self.pin_seq(),
    {
        &self.pins
    }

    /// Levels currently driven, line 0 first.
    pub fn levels(&self) -> (levels: [bool; N])
        ensures
            levels@ == self.level_seq(),
    {
        self.levels
    }

    /// Output configuration shared by all lines.
    pub fn cfg(&self) -> (cfg: OutputCfg)
        ensures
            cfg == self.output_cfg(),
    {
        self.cfg
    }
}

/// What a reader decodes from lines that a writer has just driven from a
/// number is that number reduced to the bus width; a number that fits in the
/// bus comes back unchanged. With `number_bits` at 8 or 16 and the bus no
/// wider than that, this is the round trip of the `u8` and `u16` accessors;
/// with 32 it is that of the `u32` accessors on a bus of any width.
pub proof fn lemma_write_then_read(value: nat, lines: nat, number_bits: nat)
    ensures
        pack_bits(bits_of(value, usable_width(lines, number_bits))) == value % pow2(
            usable_width(lines, number_bits),
        ),
        value < pow2(usable_width(lines, number_bits)) ==> pack_bits(
            bits_of(value, usable_width(lines, number_bits)),
        ) == value,
{
    let w = usable_width(lines, number_bits);
    lemma_pack_bits_of(value, w);
    if value < pow2(w) {
        lemma_pack_bits_of_small(value, w);
    }
}

} // verus!
