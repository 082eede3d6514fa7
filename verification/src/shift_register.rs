//! Behaviour of a daisy chain of 8-bit shift registers on its four lines.
//!
//! [`ChainState`] and [`step`] say what a chain does with each pin write:
//! a rising edge of the shift clock moves every stage one place towards the
//! far end and takes the level of the serial line into stage 0; a rising edge
//! of the latch copies all stages to the outputs; the active level of the
//! clear line empties the stages and leaves the outputs alone. Writes to pins
//! that are not wired to the chain do nothing.
//!
//! The laws at the end tie the waveforms of the drivers in [`crate::sipo`] to
//! what reaches the outputs. [`ShiftChain`] is the same chain as a value that
//! can be run.

use vstd::prelude::*;
use crate::bits::{bits_of, pack_bits, lemma_pack_bits_of_small, lemma_pack_bits_step,
    lemma_pack_bits_bound, with_bit_u8};
use crate::pin::{pulse_wave, PinWrite};
use crate::sipo::{frame_bit, lanes_bit_wave, shift_wave, tick_wave, ControlGroup, ParallelBank,
    SipoSingle, frame_rows};

verus! {

/// The pins a chain is wired to.
#[derive(Clone, Copy, Debug)]
pub struct ChainWiring {
    /// Serial data input of the nearest register.
    pub ser: u8,
    /// Shift clock.
    pub srclk: u8,
    /// Latch clock; `None` where the board does not bring it to a pin.
    pub rclk: Option<u8>,
    /// Clear line; `None` where the board ties it to its inactive level.
    pub srclr: Option<u8>,
    /// Whether the clear line clears when it is low.
    pub clr_active_low: bool,
}

impl ChainWiring {
    /// Whether `pin` is one of the four lines of the chain.
    pub open spec fn uses(&self, pin: u8) -> bool {
        pin == self.ser || pin == self.srclk || self.rclk == Some(pin) || self.srclr == Some(pin)
    }

    /// No pin serves two lines.
    pub open spec fn distinct(&self) -> bool {
        &&& self.ser != self.srclk
        &&& self.rclk != Some(self.ser)
        &&& self.rclk != Some(self.srclk)
        &&& self.srclr != Some(self.ser)
        &&& self.srclr != Some(self.srclk)
        &&& (self.rclk is Some ==> self.rclk != self.srclr)
    }

    /// Whether `pin` is one of the four lines of the chain.
    pub fn is_used(&self, pin: u8) -> (used: bool)
        ensures
            used == self.uses(pin),
    {
        pin == self.ser || pin == self.srclk || is_pin(self.rclk, pin) || is_pin(self.srclr, pin)
    }

    /// Whether no pin serves two lines.
    pub fn is_distinct(&self) -> (ok: bool)
        ensures
            ok == self.distinct(),
    {
        let latch_on_clear: bool = match self.rclk {
            Some(pin) => is_pin(self.srclr, pin),
            None => false,
        };
        self.ser != self.srclk && !is_pin(self.rclk, self.ser) && !is_pin(self.rclk, self.srclk)
            && !is_pin(self.srclr, self.ser) && !is_pin(self.srclr, self.srclk)
            && !latch_on_clear
    }
}

/// Whether an optional line is on `pin`.
fn is_pin(line: Option<u8>, pin: u8) -> (same: bool)
    ensures
        same == (line == Some(pin)),
{
    match line {
        Some(p) => p == pin,
        None => false,
    }
}

/// Line levels, shift stages and outputs of a chain. Stage 0 is the first
/// stage of the register nearest to the serial input; register `k` holds
/// stages `8k` to `8k + 7`, the lowest of them as its least significant bit.
pub struct ChainState {
    pub ser: bool,
    pub srclk: bool,
    pub rclk: bool,
    pub srclr: bool,
    pub stages: Seq<bool>,
    pub outputs: Seq<bool>,
}

/// Whether the clear line holds the stages empty.
pub open spec fn clear_asserted(wiring: ChainWiring, srclr: bool) -> bool {
    wiring.srclr is Some && srclr != wiring.clr_active_low
}

/// The stages after one shift: `bit` enters at stage 0, the last stage drops
/// off the far end.
pub open spec fn shift_in(stages: Seq<bool>, bit: bool) -> Seq<bool> {
    if stages.len() == 0 {
        stages
    } else {
        seq![bit] + stages.drop_last()
    }
}

/// The byte that register `chip` shows, given the bits of all registers.
pub open spec fn chip_byte(bits: Seq<bool>, chip: int) -> nat {
    pack_bits(bits.subrange(8 * chip, 8 * chip + 8))
}

impl ChainState {
    /// A chain of `chips` registers.
    pub open spec fn wf(&self, chips: nat) -> bool {
        self.stages.len() == 8 * chips && self.outputs.len() == 8 * chips
    }

    /// Clock and latch are low and the clear line is inactive.
    pub open spec fn at_rest(&self, wiring: ChainWiring) -> bool {
        !self.srclk && !self.rclk && !clear_asserted(wiring, self.srclr)
    }
}

/// The chain after one pin write.
pub open spec fn step(wiring: ChainWiring, s: ChainState, w: PinWrite) -> ChainState {
    if w.pin == wiring.ser {
        ChainState { ser: w.level, ..s }
    } else if w.pin == wiring.srclk {
        if w.level && !s.srclk && !clear_asserted(wiring, s.srclr) {
            ChainState { srclk: true, stages: shift_in(s.stages, s.ser), ..s }
        } else {
            ChainState { srclk: w.level, ..s }
        }
    } else if wiring.rclk == Some(w.pin) {
        if w.level && !s.rclk {
            ChainState { rclk: true, outputs: s.stages, ..s }
        } else {
            ChainState { rclk: w.level, ..s }
        }
    } else if wiring.srclr == Some(w.pin) {
        if clear_asserted(wiring, w.level) {
            ChainState {
                srclr: w.level,
                stages: Seq::new(s.stages.len(), |i: int| false),
                ..s
            }
        } else {
            ChainState { srclr: w.level, ..s }
        }
    } else {
        s
    }
}

/// The chain after a list of pin writes, first write first.
pub open spec fn run(wiring: ChainWiring, s: ChainState, wave: Seq<PinWrite>) -> ChainState
    decreases wave.len(),
{
    if wave.len() == 0 {
        s
    } else {
        step(wiring, run(wiring, s, wave.drop_last()), wave.last())
    }
}

/// Running two lists one after the other is running their concatenation.
pub proof fn lemma_run_concat(
    wiring: ChainWiring,
    s: ChainState,
    first: Seq<PinWrite>,
    second: Seq<PinWrite>,
)
    ensures
        run(wiring, s, first + second) == run(wiring, run(wiring, s, first), second),
    decreases second.len(),
{
    if second.len() == 0 {
    } else {
        assert((first + second).drop_last() =~= first + second.drop_last());
        lemma_run_concat(wiring, s, first, second.drop_last());
    }
}

/// A pulse that starts with the high level, written out.
pub proof fn lemma_run_pulse(wiring: ChainWiring, s: ChainState, pin: u8, first: bool)
    ensures
        run(wiring, s, pulse_wave(pin, first)) == step(
            wiring,
            step(wiring, s, PinWrite { pin, level: first }),
            PinWrite { pin, level: !first },
        ),
{
    let wave = pulse_wave(pin, first);
    assert(run(wiring, s, wave.drop_last().drop_last()) == s);
    assert(run(wiring, s, wave.drop_last()) == step(wiring, s, PinWrite { pin, level: first }));
}

/* ================================== LAWS ================================== */

/// The stages of a chain after `ticks` bits of `frame` were shifted in: the
/// bit sent last sits in stage 0, and what was there before has moved
/// `ticks` places towards the far end.
pub open spec fn stages_after(before: Seq<bool>, frame: Seq<u8>, ticks: nat) -> Seq<bool> {
    Seq::new(
        before.len(),
        |p: int|
            if p < ticks {
                frame_bit(frame, ticks - 1 - p)
            } else {
                before[p - ticks]
            },
    )
}

/// The serial line after `ticks` bits of `frame`: at the last bit sent.
pub open spec fn ser_after(before: bool, frame: Seq<u8>, ticks: nat) -> bool {
    if ticks == 0 {
        before
    } else {
        frame_bit(frame, ticks - 1)
    }
}

/// The chain on lane `lane` listens to its own data line only: none of the
/// other lanes is on one of its pins.
pub open spec fn alone_on_lane(wiring: ChainWiring, sers: Seq<u8>, lane: int) -> bool {
    &&& 0 <= lane < sers.len()
    &&& wiring.ser == sers[lane]
    &&& wiring.distinct()
    &&& forall|l: int| 0 <= l < sers.len() && l != lane ==> !wiring.uses(#[trigger] sers[l])
}

proof fn lemma_run_lane_writes(
    wiring: ChainWiring,
    s: ChainState,
    sers: Seq<u8>,
    frames: Seq<Seq<u8>>,
    t: int,
    lane: int,
    j: nat,
)
    requires
        alone_on_lane(wiring, sers, lane),
        j <= sers.len(),
    ensures
        run(wiring, s, lanes_bit_wave(sers, frames, t).take(j as int)) == (ChainState {
            ser: if j > lane {
                frame_bit(frames[lane], t)
            } else {
                s.ser
            },
            ..s
        }),
    decreases j,
{
    let wave = lanes_bit_wave(sers, frames, t).take(j as int);
    if j > 0 {
        let l = j - 1;
        assert(wave.drop_last() =~= lanes_bit_wave(sers, frames, t).take(l));
        lemma_run_lane_writes(wiring, s, sers, frames, t, lane, l as nat);
        if l != lane {
        }
    }
}

proof fn lemma_run_tick(
    wiring: ChainWiring,
    s: ChainState,
    sers: Seq<u8>,
    frames: Seq<Seq<u8>>,
    t: int,
    lane: int,
)
    requires
        alone_on_lane(wiring, sers, lane),
        !s.srclk,
        !clear_asserted(wiring, s.srclr),
    ensures
        run(wiring, s, tick_wave(sers, wiring.srclk, frames, t)) == (ChainState {
            ser: frame_bit(frames[lane], t),
            stages: shift_in(s.stages, frame_bit(frames[lane], t)),
            ..s
        }),
{
    let data = lanes_bit_wave(sers, frames, t);
    assert(data.take(sers.len() as int) =~= data);
    lemma_run_lane_writes(wiring, s, sers, frames, t, lane, sers.len());
    lemma_run_concat(wiring, s, data, pulse_wave(wiring.srclk, true));
    lemma_run_pulse(wiring, run(wiring, s, data), wiring.srclk, true);
}

/// Shifting in lockstep, seen from the chain on one lane: after `ticks`
/// ticks its stages hold the last `ticks` bits of this lane's frame, the
/// clock is low again, and the outputs have not moved.
pub proof fn lemma_run_shift(
    wiring: ChainWiring,
    s: ChainState,
    sers: Seq<u8>,
    frames: Seq<Seq<u8>>,
    lane: int,
    ticks: nat,
)
    requires
        alone_on_lane(wiring, sers, lane),
        !s.srclk,
        !clear_asserted(wiring, s.srclr),
    ensures
        run(wiring, s, shift_wave(sers, wiring.srclk, frames, ticks)) == (ChainState {
            ser: ser_after(s.ser, frames[lane], ticks),
            stages: stages_after(s.stages, frames[lane], ticks),
            ..s
        }),
    decreases ticks,
{
    if ticks == 0 {
        assert(stages_after(s.stages, frames[lane], 0) =~= s.stages);
    } else {
        let prev = (ticks - 1) as nat;
        let mid = run(wiring, s, shift_wave(sers, wiring.srclk, frames, prev));
        lemma_run_shift(wiring, s, sers, frames, lane, prev);
        lemma_run_concat(
            wiring,
            s,
            shift_wave(sers, wiring.srclk, frames, prev),
            tick_wave(sers, wiring.srclk, frames, prev as int),
        );
        lemma_run_tick(wiring, mid, sers, frames, prev as int, lane);
        assert(shift_in(mid.stages, frame_bit(frames[lane], prev as int)) =~= stages_after(
            s.stages,
            frames[lane],
            ticks,
        ));
    }
}

/// Once a whole frame has been shifted into a chain of as many registers,
/// register `chip` holds byte `len - 1 - chip` of the frame: the first byte
/// sits in the far register, the last byte in the nearest one.
pub proof fn lemma_frame_in_stages(before: Seq<bool>, frame: Seq<u8>, chip: int)
    requires
        before.len() == 8 * frame.len(),
        0 <= chip < frame.len(),
    ensures
        chip_byte(stages_after(before, frame, 8 * frame.len()), chip) == frame[frame.len() - 1
            - chip],
{
    let n = frame.len();
    let stages = stages_after(before, frame, 8 * n);
    let byte = frame[n - 1 - chip];
    let shown = stages.subrange(8 * chip, 8 * chip + 8);
    assert(shown =~= bits_of(byte as nat, 8));
    vstd::arithmetic::power2::lemma2_to64();
    lemma_pack_bits_of_small(byte as nat, 8);
}

/// The wiring of a chain whose data input is `ser` and whose control lines
/// are those of `ctrl`.
pub open spec fn wiring_of(ser: u8, ctrl: ControlGroup) -> ChainWiring {
    ChainWiring {
        ser,
        srclk: ctrl.shift.pin_id(),
        rclk: ctrl.latch_pin(),
        srclr: ctrl.clear_pin(),
        clr_active_low: match ctrl.clear {
            Some(line) => line.is_active_low(),
            None => true,
        },
    }
}

/// The wiring of a chain whose data input is `ser` and whose control lines
/// are those of `ctrl`.
pub fn chain_wiring(ser: u8, ctrl: &ControlGroup) -> (wiring: ChainWiring)
    ensures
        wiring == wiring_of(ser, *ctrl),
{
    ChainWiring {
        ser,
        srclk: ctrl.shift.pin(),
        rclk: match &ctrl.latch {
            Some(line) => Some(line.pin()),
            None => None,
        },
        srclr: match &ctrl.clear {
            Some(line) => Some(line.pin()),
            None => None,
        },
        clr_active_low: match &ctrl.clear {
            Some(line) => line.active_low(),
            None => true,
        },
    }
}

/// Every line of the bank has a pin of its own.
pub open spec fn bank_pins_distinct<const LANES: usize, const N: usize>(
    bank: ParallelBank<LANES, N>,
) -> bool {
    forall|lane: int|
        0 <= lane < LANES ==> alone_on_lane(
            wiring_of((#[trigger] bank.lanes[lane]).pin_id(), bank.ctrl),
            bank.lane_pins(),
            lane,
        )
}

/// Whether every line of the bank has a pin of its own.
pub fn bank_has_distinct_pins<const LANES: usize, const N: usize>(
    bank: &ParallelBank<LANES, N>,
) -> (ok: bool)
    ensures
        ok == bank_pins_distinct(*bank),
{
    let ghost sers = bank.lane_pins();
    let mut lane: usize = 0;
    while lane < LANES
        invariant
            lane <= LANES,
            sers == bank.lane_pins(),
            forall|k: int|
                0 <= k < lane ==> alone_on_lane(
                    wiring_of((#[trigger] bank.lanes[k]).pin_id(), bank.ctrl),
                    sers,
                    k,
                ),
        decreases LANES - lane,
    {
        let wiring = chain_wiring(bank.lanes[lane].pin(), &bank.ctrl);
        if !wiring.is_distinct() {
            return false;
        }
        let mut other: usize = 0;
        while other < LANES
            invariant
                other <= LANES,
                lane < LANES,
                sers == bank.lane_pins(),
                wiring == wiring_of(bank.lanes[lane as int].pin_id(), bank.ctrl),
                forall|l: int| 0 <= l < other && l != lane ==> !wiring.uses(#[trigger] sers[l]),
            decreases LANES - other,
        {
            if other != lane && wiring.is_used(bank.lanes[other].pin()) {
                assert(wiring.uses(sers[other as int]));
                return false;
            }
            other += 1;
        }
        lane += 1;
    }
    true
}

/// What one `write_exact` of a bank does to the chain on any of its lanes:
/// while the frames are shifted the outputs do not move; after the one latch
/// pulse every register shows its byte of the lane's frame, the far register
/// the first byte and the nearest register the last. As all lanes hang on the
/// same latch line, they all change on that one pulse.
pub proof fn lemma_bank_write_exact<const LANES: usize, const N: usize>(
    bank: ParallelBank<LANES, N>,
    frames: [[u8; N]; LANES],
    lane: int,
    s: ChainState,
)
    requires
        0 <= lane < LANES,
        bank_pins_distinct(bank),
        bank.ctrl.latch is Some,
        s.wf(N as nat),
        s.at_rest(wiring_of(bank.lanes[lane].pin_id(), bank.ctrl)),
    ensures
        ({
            let wiring = wiring_of(bank.lanes[lane].pin_id(), bank.ctrl);
            let shifted = run(wiring, s, bank.frames_wave(frame_rows(frames)));
            let latched = run(
                wiring,
                s,
                bank.frames_wave(frame_rows(frames)) + bank.ctrl.latch_wave(),
            );
            &&& shifted.outputs == s.outputs
            &&& latched.wf(N as nat)
            &&& latched.at_rest(wiring)
            &&& latched.outputs == latched.stages
            &&& forall|chip: int|
                0 <= chip < N ==> chip_byte(latched.outputs, chip) == #[trigger] frames[lane][N
                    - 1 - chip]
        }),
{
    let wiring = wiring_of(bank.lanes[lane].pin_id(), bank.ctrl);
    let sers = bank.lane_pins();
    let rows = frame_rows(frames);
    let ticks: nat = 8 * N as nat;
    let shift = bank.frames_wave(rows);
    let shifted = run(wiring, s, shift);
    lemma_run_shift(wiring, s, sers, rows, lane, ticks);
    lemma_run_concat(wiring, s, shift, bank.ctrl.latch_wave());
    lemma_run_pulse(wiring, shifted, wiring.rclk->0, true);
    let latched = run(wiring, s, shift + bank.ctrl.latch_wave());
    assert forall|chip: int| 0 <= chip < N implies chip_byte(latched.outputs, chip)
        == #[trigger] frames[lane][N - 1 - chip] by {
        lemma_frame_in_stages(s.stages, frames[lane]@, chip);
    }
}

/// Every line of the chain has a pin of its own.
pub open spec fn single_pins_distinct<const N: usize>(chain: SipoSingle<N>) -> bool {
    wiring_of(chain.lane.pin_id(), chain.ctrl).distinct()
}

/// Whether every line of the chain has a pin of its own.
pub fn single_has_distinct_pins<const N: usize>(chain: &SipoSingle<N>) -> (ok: bool)
    ensures
        ok == single_pins_distinct(*chain),
{
    chain_wiring(chain.lane.pin(), &chain.ctrl).is_distinct()
}

/// What one `write_exact` of a single chain does to it: while the frame is
/// shifted the outputs do not move; after the latch pulse every register
/// shows its byte of the frame, the far register the first byte and the
/// nearest register the last.
pub proof fn lemma_single_write_exact<const N: usize>(
    chain: SipoSingle<N>,
    frame: [u8; N],
    s: ChainState,
)
    requires
        single_pins_distinct(chain),
        chain.ctrl.latch is Some,
        s.wf(N as nat),
        s.at_rest(wiring_of(chain.lane.pin_id(), chain.ctrl)),
    ensures
        ({
            let wiring = wiring_of(chain.lane.pin_id(), chain.ctrl);
            let shifted = run(wiring, s, chain.frame_wave(frame@));
            let latched = run(wiring, s, chain.frame_wave(frame@) + chain.ctrl.latch_wave());
            &&& shifted.outputs == s.outputs
            &&& latched.wf(N as nat)
            &&& latched.at_rest(wiring)
            &&& latched.outputs == latched.stages
            &&& forall|chip: int|
                0 <= chip < N ==> chip_byte(latched.outputs, chip) == #[trigger] frame[N - 1
                    - chip]
        }),
{
    let wiring = wiring_of(chain.lane.pin_id(), chain.ctrl);
    let sers = seq![chain.lane.pin_id()];
    let rows = seq![frame@];
    let ticks: nat = 8 * N as nat;
    let shift = chain.frame_wave(frame@);
    let shifted = run(wiring, s, shift);
    lemma_run_shift(wiring, s, sers, rows, 0, ticks);
    lemma_run_concat(wiring, s, shift, chain.ctrl.latch_wave());
    lemma_run_pulse(wiring, shifted, wiring.rclk->0, true);
    let latched = run(wiring, s, shift + chain.ctrl.latch_wave());
    assert forall|chip: int| 0 <= chip < N implies chip_byte(latched.outputs, chip)
        == #[trigger] frame[N - 1 - chip] by {
        lemma_frame_in_stages(s.stages, frame@, chip);
    }
}

/// What one clear pulse of a control group does to a chain on it: every
/// stage is emptied, the outputs keep what was latched, and the lines are at
/// rest again.
pub proof fn lemma_clear_empties_stages(ser: u8, ctrl: ControlGroup, s: ChainState)
    requires
        wiring_of(ser, ctrl).distinct(),
        ctrl.clear is Some,
        s.at_rest(wiring_of(ser, ctrl)),
    ensures
        ({
            let wiring = wiring_of(ser, ctrl);
            let cleared = run(wiring, s, ctrl.clear_wave());
            &&& cleared.stages == Seq::new(s.stages.len(), |i: int| false)
            &&& cleared.outputs == s.outputs
            &&& cleared.at_rest(wiring)
        }),
{
    let wiring = wiring_of(ser, ctrl);
    lemma_run_pulse(wiring, s, wiring.srclr->0, !wiring.clr_active_low);
}

/* ============================ RUNNABLE CHAIN ============================ */

/// A chain of `N` shift registers that can be fed pin writes. It does what
/// [`step`] says, so that a waveform can be tried without hardware.
pub struct ShiftChain<const N: usize> {
    wiring: ChainWiring,
    ser: bool,
    srclk: bool,
    rclk: bool,
    srclr: bool,
    stages: Vec<bool>,
    outputs: Vec<bool>,
}

/// `count` registers' worth of cleared bits.
fn cleared_bits(count: usize) -> (bits: Vec<bool>)
    ensures
        bits@ == Seq::new(8 * count as nat, |i: int| false),
{
    let mut bits: Vec<bool> = Vec::new();
    let mut chip: usize = 0;
    while chip < count
        invariant
            chip <= count,
            bits@ =~= Seq::new(8 * chip as nat, |i: int| false),
        decreases count - chip,
    {
        let mut q: usize = 0;
        while q < 8
            invariant
                q <= 8,
                chip < count,
                bits@ =~= Seq::new((8 * chip + q) as nat, |i: int| false),
            decreases 8 - q,
        {
            bits.push(false);
            q += 1;
        }
        chip += 1;
    }
    bits
}

/// The byte held by register `chip` among `bits`.
fn byte_of_chip(bits: &Vec<bool>, chip: usize) -> (value: u8)
    requires
        8 * chip + 8 <= bits@.len(),
    ensures
        value == chip_byte(bits@, chip as int),
{
    let ghost shown = bits@.subrange(8 * chip, 8 * chip + 8);
    let len: usize = bits.len();
    let mut value: u8 = 0;
    let mut q: usize = 0;
    while q < 8
        invariant
            q <= 8,
            len == bits@.len(),
            8 * chip + 8 <= len,
            shown == bits@.subrange(8 * chip, 8 * chip + 8),
            value == pack_bits(shown.take(q as int)),
        decreases 8 - q,
    {
        proof {
            lemma_pack_bits_step(shown, q as int);
            lemma_pack_bits_bound(shown.take(q as int));
        }
        if bits[8 * chip + q] {
            value = with_bit_u8(value, q);
        }
        q += 1;
    }
    assert(shown.take(8) =~= shown);
    value
}

impl<const N: usize> View for ShiftChain<N> {
    type V = ChainState;

    closed spec fn view(&self) -> ChainState {
        ChainState {
            ser: self.ser,
            srclk: self.srclk,
            rclk: self.rclk,
            srclr: self.srclr,
            stages: self.stages@,
            outputs: self.outputs@,
        }
    }
}

impl<const N: usize> ShiftChain<N> {
    #[verifier::type_invariant]
    spec fn sized(&self) -> bool {
        self.stages@.len() == 8 * N && self.outputs@.len() == 8 * N
    }

    /// The pins the chain is wired to.
    pub closed spec fn wired(&self) -> ChainWiring {
        self.wiring
    }

    /// A chain on the given pins as it is after power-up and one clear: all
    /// stages and outputs empty, data, clock and latch low, the clear line at
    /// its inactive level.
    pub fn new(wiring: ChainWiring) -> (chain: Self)
        ensures
            chain.wired() == wiring,
            chain@ == (ChainState {
                ser: false,
                srclk: false,
                rclk: false,
                srclr: wiring.clr_active_low,
                stages: Seq::new(8 * N as nat, |i: int| false),
                outputs: Seq::new(8 * N as nat, |i: int| false),
            }),
            chain@.at_rest(wiring),
            chain@.wf(N as nat),
    {
        ShiftChain {
            wiring,
            ser: false,
            srclk: false,
            rclk: false,
            srclr: wiring.clr_active_low,
            stages: cleared_bits(N),
            outputs: cleared_bits(N),
        }
    }

    fn is_clear_asserted(&self, level: bool) -> (b: bool)
        ensures
            b == clear_asserted(self.wiring, level),
    {
        self.wiring.srclr.is_some() && level != self.wiring.clr_active_low
    }

    fn shifted_stages(&self) -> (next: Vec<bool>)
        ensures
            next@ == shift_in(self.stages@, self.ser),
    {
        let len: usize = self.stages.len();
        let mut next: Vec<bool> = Vec::new();
        if len == 0 {
            return next;
        }
        next.push(self.ser);
        let mut i: usize = 0;
        while i < len - 1
            invariant
                len == self.stages@.len(),
                len > 0,
                i <= len - 1,
                next@ =~= seq![self.ser] + self.stages@.take(i as int),
            decreases len - i,
        {
            next.push(self.stages[i]);
            i += 1;
        }
        next
    }

    /// Feeds one pin write to the chain.
    pub fn apply(&mut self, w: PinWrite)
        ensures
            final(self)@ == step(old(self).wired(), old(self)@, w),
            final(self).wired() == old(self).wired(),
            final(self)@.wf(N as nat),
    {
        proof {
            use_type_invariant(&*self);
        }
        if w.pin == self.wiring.ser {
            self.ser = w.level;
        } else if w.pin == self.wiring.srclk {
            if w.level && !self.srclk && !self.is_clear_asserted(self.srclr) {
                let next = self.shifted_stages();
                self.stages = next;
            }
            self.srclk = w.level;
        } else if self.wiring.rclk == Some(w.pin) {
            if w.level && !self.rclk {
                let next = self.stages.clone();
                self.outputs = next;
            }
            self.rclk = w.level;
        } else if self.wiring.srclr == Some(w.pin) {
            if self.is_clear_asserted(w.level) {
                let next = cleared_bits(N);
                self.stages = next;
            }
            self.srclr = w.level;
        }
    }

    /// Feeds a list of pin writes to the chain, first write first.
    pub fn feed(&mut self, wave: &[PinWrite])
        ensures
            final(self)@ == run(old(self).wired(), old(self)@, wave@),
            final(self).wired() == old(self).wired(),
            final(self)@.wf(N as nat),
    {
        proof {
            use_type_invariant(&*self);
        }
        let ghost wiring = self.wired();
        let ghost start = self@;
        let mut i: usize = 0;
        while i < wave.len()
            invariant
                i <= wave@.len(),
                self.wired() == wiring,
                self@.wf(N as nat),
                self@ == run(wiring, start, wave@.take(i as int)),
            decreases wave@.len() - i,
        {
            assert(wave@.take(i as int + 1).drop_last() =~= wave@.take(i as int));
            self.apply(wave[i]);
            i += 1;
        }
        assert(wave@.take(wave@.len() as int) =~= wave@);
    }

    /// The byte that register `chip` shows on its outputs; register 0 is the
    /// one nearest to the serial input.
    pub fn output(&self, chip: usize) -> (value: u8)
        requires
            chip < N,
        ensures
            value == chip_byte(self@.outputs, chip as int),
    {
        proof {
            use_type_invariant(self);
        }
        byte_of_chip(&self.outputs, chip)
    }

    /// The byte that register `chip` holds in its shift stages.
    pub fn staged(&self, chip: usize) -> (value: u8)
        requires
            chip < N,
        ensures
            value == chip_byte(self@.stages, chip as int),
    {
        proof {
            use_type_invariant(self);
        }
        byte_of_chip(&self.stages, chip)
    }

    /// The pins the chain is wired to.
    pub fn wiring(&self) -> (wiring: ChainWiring)
        ensures
            wiring == self.wired(),
    {
        self.wiring
    }
}

} // verus!
