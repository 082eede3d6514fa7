//! Bit-banged drivers for chains of 8-bit serial-in/parallel-out shift
//! registers (74HC595 style).
//!
//! The control plane is a shift clock with an optional latch line and an
//! optional clear line; the data plane is one serial line per chain. A
//! [`SipoSingle`] drives one chain, a [`ParallelBank`] drives several chains
//! in lockstep from one shared control group.
//!
//! Every operation returns the pin writes it stands for, in the order in which
//! they have to reach the wire. Clock and latch lines rest low; a clear line
//! rests at its inactive level.

use vstd::prelude::*;
use crate::bits::{bit_at, bit_of_u8};
use crate::pin::{pulse_wave, DriveMode, Level, OutputCfg, PinWrite, Pull};

verus! {

/// Output configuration used for shift-register lines unless another one is
/// given: open drain, no pull resistor.
pub open spec fn shiftreg_cfg() -> OutputCfg {
    OutputCfg { drive_mode: DriveMode::OpenDrain, pull: Pull::Floating }
}

/// Output configuration used for shift-register lines unless another one is
/// given.
pub fn shiftreg_output_cfg() -> (cfg: OutputCfg)
    ensures
        cfg == shiftreg_cfg(),
{
    OutputCfg { drive_mode: DriveMode::OpenDrain, pull: Pull::Floating }
}

/* ============================== CONTROL PLANE ============================== */

/// Latch line (RCLK). One pulse copies the shift registers of all chained
/// devices to their output registers.
#[derive(Debug)]
pub struct LatchLine {
    rclk: u8,
    cfg: OutputCfg,
}

impl LatchLine {
    /// GPIO number of the line.
    pub closed spec fn pin_id(&self) -> u8 {
        self.rclk
    }

    /// Output configuration of the line.
    pub closed spec fn output_cfg(&self) -> OutputCfg {
        self.cfg
    }

    /// A latch line on the given pin, resting low.
    pub fn from_pin(rclk: u8) -> (line: Self)
        ensures
            line.pin_id() == rclk,
            line.output_cfg() == shiftreg_cfg(),
    {
        LatchLine { rclk, cfg: shiftreg_output_cfg() }
    }

    /// A latch line on the given pin with its own output configuration.
    pub fn from_pin_w_cfg(rclk: u8, cfg: OutputCfg) -> (line: Self)
        ensures
            line.pin_id() == rclk,
            line.output_cfg() == cfg,
    {
        LatchLine { rclk, cfg }
    }

    /// One latch pulse: low, high, low.
    pub fn pulse(&mut self) -> (wave: [PinWrite; 2])
        ensures
            wave@ == pulse_wave(old(self).pin_id(), true),
            *final(self) == *old(self),
    {
        let wave = [
            PinWrite { pin: self.rclk, level: true },
            PinWrite { pin: self.rclk, level: false },
        ];
        wave
    }

    /// GPIO number of the line.
    pub fn pin(&self) -> (pin: u8)
        ensures
            pin == self.pin_id(),
    {
        self.rclk
    }

    /// Output configuration of the line.
    pub fn cfg(&self) -> (cfg: OutputCfg)
        ensures
            cfg == self.output_cfg(),
    {
        self.cfg
    }

    /// The level at which the line rests.
    pub fn rest_level(&self) -> (level: Level)
        ensures
            level == Level::Low,
    {
        Level::Low
    }
}

/// Clear line (SRCLR). Its active level empties the shift registers; on a
/// 74HC595 the line is active-low.
#[derive(Debug)]
pub struct ClearLine {
    srclr: u8,
    cfg: OutputCfg,
    active_low: bool,
}

impl ClearLine {
    /// GPIO number of the line.
    pub closed spec fn pin_id(&self) -> u8 {
        self.srclr
    }

    /// Output configuration of the line.
    pub closed spec fn output_cfg(&self) -> OutputCfg {
        self.cfg
    }

    /// Whether the line clears when it is low.
    pub closed spec fn is_active_low(&self) -> bool {
        self.active_low
    }

    /// A clear line on the given pin, resting at its inactive level.
    pub fn from_pin(srclr: u8, active_low: bool) -> (line: Self)
        ensures
            line.pin_id() == srclr,
            line.is_active_low() == active_low,
            line.output_cfg() == shiftreg_cfg(),
    {
        ClearLine { srclr, cfg: shiftreg_output_cfg(), active_low }
    }

    /// A clear line on the given pin with its own output configuration.
    pub fn from_pin_w_cfg(srclr: u8, active_low: bool, cfg: OutputCfg) -> (line: Self)
        ensures
            line.pin_id() == srclr,
            line.is_active_low() == active_low,
            line.output_cfg() == cfg,
    {
        ClearLine { srclr, cfg, active_low }
    }

    /// One clear pulse: to the active level and back.
    pub fn pulse(&mut self) -> (wave: [PinWrite; 2])
        ensures
            wave@ == pulse_wave(old(self).pin_id(), !old(self).is_active_low()),
            *final(self) == *old(self),
    {
        let active: bool = !self.active_low;
        let wave = [
            PinWrite { pin: self.srclr, level: active },
            PinWrite { pin: self.srclr, level: !active },
        ];
        wave
    }

    /// GPIO number of the line.
    pub fn pin(&self) -> (pin: u8)
        ensures
            pin == self.pin_id(),
    {
        self.srclr
    }

    /// Output configuration of the line.
    pub fn cfg(&self) -> (cfg: OutputCfg)
        ensures
            cfg == self.output_cfg(),
    {
        self.cfg
    }

    /// Whether the line clears when it is low.
    pub fn active_low(&self) -> (b: bool)
        ensures
            b == self.is_active_low(),
    {
        self.active_low
    }

    /// The level at which the line rests: high when it is active-low.
    pub fn rest_level(&self) -> (level: Level)
        ensures
            level.as_bool() == self.is_active_low(),
    {
        Level::from_bool(self.active_low)
    }
}

/// Shift clock line (SRCLK). Every tick shifts all chains on it by one bit.
#[derive(Debug)]
pub struct ShiftClockLine {
    srclk: u8,
    cfg: OutputCfg,
}

impl ShiftClockLine {
    /// GPIO number of the line.
    pub closed spec fn pin_id(&self) -> u8 {
        self.srclk
    }

    /// Output configuration of the line.
    pub closed spec fn output_cfg(&self) -> OutputCfg {
        self.cfg
    }

    /// A shift clock line on the given pin, resting low.
    pub fn from_pin(srclk: u8) -> (line: Self)
        ensures
            line.pin_id() == srclk,
            line.output_cfg() == shiftreg_cfg(),
    {
        ShiftClockLine { srclk, cfg: shiftreg_output_cfg() }
    }

    /// One clock tick: low, high, low.
    pub fn tick(&mut self) -> (wave: [PinWrite; 2])
        ensures
            wave@ == pulse_wave(old(self).pin_id(), true),
            *final(self) == *old(self),
    {
        let wave = [
            PinWrite { pin: self.srclk, level: true },
            PinWrite { pin: self.srclk, level: false },
        ];
        wave
    }

    /// GPIO number of the line.
    pub fn pin(&self) -> (pin: u8)
        ensures
            pin == self.pin_id(),
    {
        self.srclk
    }

    /// Output configuration of the line.
    pub fn cfg(&self) -> (cfg: OutputCfg)
        ensures
            cfg == self.output_cfg(),
    {
        self.cfg
    }

    /// The level at which the line rests.
    pub fn rest_level(&self) -> (level: Level)
        ensures
            level == Level::Low,
    {
        Level::Low
    }
}

/// Pins of a control group: shift clock, optional latch, optional clear.
#[derive(Clone, Copy, Debug)]
pub struct ControlPinCfg {
    /// Shift clock (SRCLK), required.
    pub srclk: u8,
    /// Latch clock (RCLK); absent where the board ties it elsewhere.
    pub rclk: Option<u8>,
    /// Clear line (SRCLR), usually active-low.
    pub srclr: Option<u8>,
    /// Whether the clear line clears when it is low.
    pub clr_active_low: bool,
}

/// Control lines of a set of shift-register chains. Whether the group is
/// shared or exclusive depends on how many lanes are driven with it.
#[derive(Debug)]
pub struct ControlGroup {
    pub shift: ShiftClockLine,
    pub latch: Option<LatchLine>,
    pub clear: Option<ClearLine>,
}

impl ControlGroup {
    /// GPIO number of the latch line, if there is one.
    pub open spec fn latch_pin(&self) -> Option<u8> {
        match self.latch {
            Some(line) => Some(line.pin_id()),
            None => None,
        }
    }

    /// GPIO number of the clear line, if there is one.
    pub open spec fn clear_pin(&self) -> Option<u8> {
        match self.clear {
            Some(line) => Some(line.pin_id()),
            None => None,
        }
    }

    /// The writes of one latch pulse; none where no latch line is wired.
    pub open spec fn latch_wave(&self) -> Seq<PinWrite> {
        match self.latch {
            Some(line) => pulse_wave(line.pin_id(), true),
            None => Seq::empty(),
        }
    }

    /// The writes of one clear pulse; none where no clear line is wired.
    pub open spec fn clear_wave(&self) -> Seq<PinWrite> {
        match self.clear {
            Some(line) => pulse_wave(line.pin_id(), !line.is_active_low()),
            None => Seq::empty(),
        }
    }

    /// Builds the lines of a control group from its pins.
    pub fn from_cfg(pins: ControlPinCfg) -> (group: Self)
        ensures
            group.shift.pin_id() == pins.srclk,
            group.shift.output_cfg() == shiftreg_cfg(),
            group.latch_pin() == pins.rclk,
            group.latch matches Some(line) ==> line.output_cfg() == shiftreg_cfg(),
            group.clear_pin() == pins.srclr,
            group.clear matches Some(line) ==> line.is_active_low() == pins.clr_active_low
                && line.output_cfg() == shiftreg_cfg(),
    {
        let shift = ShiftClockLine::from_pin(pins.srclk);
        let latch = match pins.rclk {
            Some(p) => Some(LatchLine::from_pin(p)),
            None => None,
        };
        let clear = match pins.srclr {
            Some(p) => Some(ClearLine::from_pin(p, pins.clr_active_low)),
            None => None,
        };
        ControlGroup { shift, latch, clear }
    }

    /// Pulses the latch line of all devices of this group. Without a latch
    /// line nothing is written.
    pub fn latch_all(&mut self) -> (wave: Vec<PinWrite>)
        ensures
            wave@ == old(self).latch_wave(),
            *final(self) == *old(self),
    {
        let mut wave: Vec<PinWrite> = Vec::new();
        match &mut self.latch {
            Some(line) => {
                let pulse = line.pulse();
                wave.push(pulse[0]);
                wave.push(pulse[1]);
            },
            None => {},
        }
        wave
    }

    /// Pulses the clear line of all devices of this group. Without a clear
    /// line nothing is written.
    pub fn clear_all(&mut self) -> (wave: Vec<PinWrite>)
        ensures
            wave@ == old(self).clear_wave(),
            *final(self) == *old(self),
    {
        let mut wave: Vec<PinWrite> = Vec::new();
        match &mut self.clear {
            Some(line) => {
                let pulse = line.pulse();
                wave.push(pulse[0]);
                wave.push(pulse[1]);
            },
            None => {},
        }
        wave
    }
}

/* =============================== DATA PLANE =============================== */

/// One serial data line (SER). It knows nothing about clocks or latches, so
/// the same lane serves a single chain and a shared-clock bank.
#[derive(Debug)]
pub struct SerLane {
    ser: u8,
    cfg: OutputCfg,
    level: bool,
}

impl SerLane {
    /// GPIO number of the line.
    pub closed spec fn pin_id(&self) -> u8 {
        self.ser
    }

    /// Output configuration of the line.
    pub closed spec fn output_cfg(&self) -> OutputCfg {
        self.cfg
    }

    /// The level the line is driven to.
    pub closed spec fn driven(&self) -> bool {
        self.level
    }

    /// A data lane on the given pin, driven low.
    pub fn from_pin(ser: u8) -> (lane: Self)
        ensures
            lane.pin_id() == ser,
            !lane.driven(),
            lane.output_cfg() == shiftreg_cfg(),
    {
        SerLane { ser, cfg: shiftreg_output_cfg(), level: false }
    }

    /// A data lane on the given pin with its own output configuration.
    pub fn from_pin_w_cfg(ser: u8, cfg: OutputCfg) -> (lane: Self)
        ensures
            lane.pin_id() == ser,
            !lane.driven(),
            lane.output_cfg() == cfg,
    {
        SerLane { ser, cfg, level: false }
    }

    /// Drives the line to `bit`.
    pub fn set_bit(&mut self, bit: bool) -> (write: PinWrite)
        ensures
            write == (PinWrite { pin: old(self).pin_id(), level: bit }),
            final(self).driven() == bit,
            final(self).pin_id() == old(self).pin_id(),
            final(self).output_cfg() == old(self).output_cfg(),
    {
        self.level = bit;
        PinWrite { pin: self.ser, level: bit }
    }

    /// GPIO number of the line.
    pub fn pin(&self) -> (pin: u8)
        ensures
            pin == self.pin_id(),
    {
        self.ser
    }

    /// Output configuration of the line.
    pub fn cfg(&self) -> (cfg: OutputCfg)
        ensures
            cfg == self.output_cfg(),
    {
        self.cfg
    }

    /// The level the line is driven to.
    pub fn level(&self) -> (level: bool)
        ensures
            level == self.driven(),
    {
        self.level
    }
}

/* ================================ WAVEFORMS ================================ */

/// The bit that a frame puts on its lane at tick `t`: byte 0 goes first, and
/// within each byte the most significant bit goes first.
pub open spec fn frame_bit(frame: Seq<u8>, t: int) -> bool {
    bit_at(frame[t / 8] as nat, (7 - t % 8) as nat)
}

/// The data writes of tick `t`: lane 0 first, each lane driven to the bit
/// that its frame holds for this tick.
pub open spec fn lanes_bit_wave(sers: Seq<u8>, frames: Seq<Seq<u8>>, t: int) -> Seq<PinWrite> {
    Seq::new(sers.len(), |l: int| PinWrite { pin: sers[l], level: frame_bit(frames[l], t) })
}

/// Everything tick `t` puts on the wire: the data writes of all lanes, then
/// one pulse of the shared clock.
pub open spec fn tick_wave(sers: Seq<u8>, clk: u8, frames: Seq<Seq<u8>>, t: int) -> Seq<PinWrite> {
    lanes_bit_wave(sers, frames, t) + pulse_wave(clk, true)
}

/// The first `ticks` ticks of shifting one frame per lane in lockstep.
pub open spec fn shift_wave(sers: Seq<u8>, clk: u8, frames: Seq<Seq<u8>>, ticks: nat) -> Seq<
    PinWrite,
>
    decreases ticks,
{
    if ticks == 0 {
        Seq::empty()
    } else {
        shift_wave(sers, clk, frames, (ticks - 1) as nat) + tick_wave(
            sers,
            clk,
            frames,
            ticks - 1,
        )
    }
}

/// Shifting takes one write per lane and two clock writes per tick.
pub proof fn lemma_shift_wave_len(sers: Seq<u8>, clk: u8, frames: Seq<Seq<u8>>, ticks: nat)
    ensures
        shift_wave(sers, clk, frames, ticks).len() == ticks * (sers.len() + 2),
    decreases ticks,
{
    let per_tick = sers.len() + 2;
    if ticks == 0 {
    } else {
        lemma_shift_wave_len(sers, clk, frames, (ticks - 1) as nat);
        assert(ticks * per_tick == (ticks - 1) * per_tick + per_tick) by (nonlinear_arith);
    }
}

/// The level a lane is left at after its frame went out: the last bit sent,
/// or what it had where the frame is empty.
pub open spec fn level_after_frame(before: bool, frame: Seq<u8>) -> bool {
    if frame.len() == 0 {
        before
    } else {
        frame_bit(frame, 8 * frame.len() - 1)
    }
}

/// The bit of `frame` for the tick that is bit `b` of byte `byte_idx`.
fn frame_bit_at<const N: usize>(frame: &[u8; N], byte_idx: usize, b: usize) -> (bit: bool)
    requires
        byte_idx < N,
        b < 8,
    ensures
        bit == frame_bit(frame@, 8 * byte_idx + b),
{
    bit_of_u8(frame[byte_idx], 7 - b)
}

/* =========================== SINGLE-CHAIN DRIVER =========================== */

/// One chain of `N` shift registers with its own control group.
#[derive(Debug)]
pub struct SipoSingle<const N: usize> {
    pub lane: SerLane,
    pub ctrl: ControlGroup,
}

impl<const N: usize> SipoSingle<N> {
    /// The writes of shifting `frame`: one bit per clock tick.
    pub open spec fn frame_wave(&self, frame: Seq<u8>) -> Seq<PinWrite> {
        shift_wave(
            seq![self.lane.pin_id()],
            self.ctrl.shift.pin_id(),
            seq![frame],
            8 * frame.len(),
        )
    }

    /// Same pins, same configuration, same control group; only the level of
    /// the data lane may differ.
    pub open spec fn same_wiring(&self, other: &Self) -> bool {
        &&& self.ctrl == other.ctrl
        &&& self.lane.pin_id() == other.lane.pin_id()
        &&& self.lane.output_cfg() == other.lane.output_cfg()
    }

    /// A chain from its data lane and its control group.
    pub fn new(lane: SerLane, ctrl: ControlGroup) -> (chain: Self)
        ensures
            chain.lane == lane,
            chain.ctrl == ctrl,
    {
        SipoSingle { lane, ctrl }
    }

    /// Shifts one byte into the chain without latching: eight clock ticks,
    /// most significant bit first.
    pub fn shift_byte(&mut self, value: u8) -> (wave: Vec<PinWrite>)
        ensures
            wave@ == old(self).frame_wave(seq![value]),
            final(self).same_wiring(old(self)),
            final(self).lane.driven() == bit_at(value as nat, 0),
    {
        let frame: [u8; 1] = [value];
        assert(frame@ =~= seq![value]);
        let ghost sers = seq![self.lane.pin_id()];
        let ghost clk = self.ctrl.shift.pin_id();
        let ghost frames = seq![frame@];
        let ghost before = *self;
        let mut wave: Vec<PinWrite> = Vec::new();
        let mut b: usize = 0;
        while b < 8
            invariant
                b <= 8,
                self.same_wiring(&before),
                sers == seq![before.lane.pin_id()],
                clk == before.ctrl.shift.pin_id(),
                frames == seq![frame@],
                wave@ == shift_wave(sers, clk, frames, b as nat),
                b > 0 ==> self.lane.driven() == frame_bit(frame@, b - 1),
            decreases 8 - b,
        {
            let bit: bool = frame_bit_at(&frame, 0, b);
            let data = self.lane.set_bit(bit);
            let tick = self.ctrl.shift.tick();
            wave.push(data);
            wave.push(tick[0]);
            wave.push(tick[1]);
            b += 1;
        }
        wave
    }

    /// Shifts one full frame of `N` bytes without latching. Byte 0 goes first
    /// and so ends up in the register at the far end of the chain.
    pub fn shift_exact(&mut self, frame: &[u8; N]) -> (wave: Vec<PinWrite>)
        ensures
            wave@ == old(self).frame_wave(frame@),
            final(self).same_wiring(old(self)),
            final(self).lane.driven() == level_after_frame(old(self).lane.driven(), frame@),
    {
        let ghost sers = seq![self.lane.pin_id()];
        let ghost clk = self.ctrl.shift.pin_id();
        let ghost frames = seq![frame@];
        let ghost before = *self;
        let mut wave: Vec<PinWrite> = Vec::new();
        let mut byte_idx: usize = 0;
        while byte_idx < N
            invariant
                byte_idx <= N,
                self.same_wiring(&before),
                sers == seq![before.lane.pin_id()],
                clk == before.ctrl.shift.pin_id(),
                frames == seq![frame@],
                wave@ == shift_wave(sers, clk, frames, (8 * byte_idx) as nat),
                byte_idx == 0 ==> self.lane.driven() == before.lane.driven(),
                byte_idx > 0 ==> self.lane.driven() == frame_bit(frame@, 8 * byte_idx - 1),
            decreases N - byte_idx,
        {
            let mut b: usize = 0;
            while b < 8
                invariant
                    b <= 8,
                    byte_idx < N,
                    self.same_wiring(&before),
                    sers == seq![before.lane.pin_id()],
                    clk == before.ctrl.shift.pin_id(),
                    frames == seq![frame@],
                    wave@ == shift_wave(sers, clk, frames, (8 * byte_idx + b) as nat),
                    b > 0 ==> self.lane.driven() == frame_bit(frame@, 8 * byte_idx + b - 1),
                decreases 8 - b,
            {
                let bit: bool = frame_bit_at(frame, byte_idx, b);
                let data = self.lane.set_bit(bit);
                let tick = self.ctrl.shift.tick();
                wave.push(data);
                wave.push(tick[0]);
                wave.push(tick[1]);
                b += 1;
            }
            byte_idx += 1;
        }
        wave
    }

    /// Shifts one full frame and then latches once.
    pub fn write_exact(&mut self, frame: &[u8; N]) -> (wave: Vec<PinWrite>)
        ensures
            wave@ == old(self).frame_wave(frame@) + old(self).ctrl.latch_wave(),
            final(self).same_wiring(old(self)),
            final(self).lane.driven() == level_after_frame(old(self).lane.driven(), frame@),
    {
        let mut wave = self.shift_exact(frame);
        let mut latch = self.ctrl.latch_all();
        wave.append(&mut latch);
        wave
    }

    /// Pulses the latch line, which puts everything that was shifted on the
    /// outputs at once. Without a latch line nothing is written.
    pub fn latch(&mut self) -> (wave: Vec<PinWrite>)
        ensures
            wave@ == old(self).ctrl.latch_wave(),
            *final(self) == *old(self),
    {
        self.ctrl.latch_all()
    }

    /// Empties the shift registers of the chain through the clear line, if
    /// there is one. The outputs keep what was latched.
    pub fn clear(&mut self) -> (wave: Vec<PinWrite>)
        ensures
            wave@ == old(self).ctrl.clear_wave(),
            *final(self) == *old(self),
    {
        self.ctrl.clear_all()
    }
}

/* ======================= PARALLEL BANK (SHARED SRCLK) ======================= */

/// The frames of a bank as sequences, lane 0 first.
pub open spec fn frame_rows<const LANES: usize, const N: usize>(frames: [[u8; N]; LANES]) -> Seq<
    Seq<u8>,
> {
    Seq::new(LANES as nat, |l: int| frames[l]@)
}

/// A bank of `LANES` chains of `N` shift registers each, all on one control
/// group: one shared clock shifts every lane by the same bit position on the
/// same tick, and one latch pulse commits all lanes together.
#[derive(Debug)]
pub struct ParallelBank<const LANES: usize, const N: usize> {
    pub lanes: [SerLane; LANES],
    pub ctrl: ControlGroup,
}

impl<const LANES: usize, const N: usize> ParallelBank<LANES, N> {
    /// GPIO numbers of the data lanes, lane 0 first.
    pub open spec fn lane_pins(&self) -> Seq<u8> {
        Seq::new(LANES as nat, |l: int| self.lanes[l].pin_id())
    }

    /// The writes of shifting one frame per lane in lockstep.
    pub open spec fn frames_wave(&self, frames: Seq<Seq<u8>>) -> Seq<PinWrite> {
        shift_wave(self.lane_pins(), self.ctrl.shift.pin_id(), frames, 8 * N as nat)
    }

    /// Same pins, same configuration, same control group; only the levels of
    /// the data lanes may differ.
    pub open spec fn same_wiring(&self, other: &Self) -> bool {
        &&& self.ctrl == other.ctrl
        &&& forall|l: int|
            0 <= l < LANES ==> {
                &&& (#[trigger] self.lanes[l]).pin_id() == other.lanes[l].pin_id()
                &&& self.lanes[l].output_cfg() == other.lanes[l].output_cfg()
            }
    }

    /// A bank from its lanes and the control group they share.
    pub fn new(lanes: [SerLane; LANES], ctrl: ControlGroup) -> (bank: Self)
        ensures
            bank.lanes == lanes,
            bank.ctrl == ctrl,
    {
        ParallelBank { lanes, ctrl }
    }

    /// Shifts one frame per lane without latching. At every tick each lane is
    /// driven to its bit for that tick, then the shared clock is pulsed once.
    pub fn shift_exact(&mut self, frames: [[u8; N]; LANES]) -> (wave: Vec<PinWrite>)
        ensures
            wave@ == old(self).frames_wave(frame_rows(frames)),
            final(self).same_wiring(old(self)),
            forall|l: int|
                0 <= l < LANES ==> (#[trigger] final(self).lanes[l]).driven() == level_after_frame(
                    old(self).lanes[l].driven(),
                    frames[l]@,
                ),
    {
        let ghost before = *self;
        let ghost sers = self.lane_pins();
        let ghost clk = self.ctrl.shift.pin_id();
        let ghost rows = frame_rows(frames);
        let mut wave: Vec<PinWrite> = Vec::new();
        let mut byte_idx: usize = 0;
        while byte_idx < N
            invariant
                byte_idx <= N,
                self.same_wiring(&before),
                sers == before.lane_pins(),
                clk == before.ctrl.shift.pin_id(),
                rows == frame_rows(frames),
                wave@ == shift_wave(sers, clk, rows, (8 * byte_idx) as nat),
                byte_idx == 0 ==> forall|l: int|
                    0 <= l < LANES ==> (#[trigger] self.lanes[l]).driven()
                        == before.lanes[l].driven(),
                byte_idx > 0 ==> forall|l: int|
                    0 <= l < LANES ==> (#[trigger] self.lanes[l]).driven() == frame_bit(
                        frames[l]@,
                        8 * byte_idx - 1,
                    ),
            decreases N - byte_idx,
        {
            let mut b: usize = 0;
            while b < 8
                invariant
                    b <= 8,
                    byte_idx < N,
                    self.same_wiring(&before),
                    sers == before.lane_pins(),
                    clk == before.ctrl.shift.pin_id(),
                    rows == frame_rows(frames),
                    wave@ == shift_wave(sers, clk, rows, (8 * byte_idx + b) as nat),
                    b > 0 ==> forall|l: int|
                        0 <= l < LANES ==> (#[trigger] self.lanes[l]).driven() == frame_bit(
                            frames[l]@,
                            8 * byte_idx + b - 1,
                        ),
                decreases 8 - b,
            {
                let ghost shifted = wave@;
                let ghost t = 8 * byte_idx + b;
                let mut lane_idx: usize = 0;
                while lane_idx < LANES
                    invariant
                        lane_idx <= LANES,
                        b < 8,
                        byte_idx < N,
                        t == 8 * byte_idx + b,
                        self.same_wiring(&before),
                        sers == before.lane_pins(),
                        rows == frame_rows(frames),
                        wave@ == shifted + lanes_bit_wave(sers, rows, t).take(lane_idx as int),
                        forall|l: int|
                            0 <= l < lane_idx ==> (#[trigger] self.lanes[l]).driven() == frame_bit(
                                frames[l]@,
                                t,
                            ),
                    decreases LANES - lane_idx,
                {
                    let bit: bool = frame_bit_at(&frames[lane_idx], byte_idx, b);
                    let data = self.lanes[lane_idx].set_bit(bit);
                    wave.push(data);
                    lane_idx += 1;
                }
                let tick = self.ctrl.shift.tick();
                wave.push(tick[0]);
                wave.push(tick[1]);
                b += 1;
            }
            byte_idx += 1;
        }
        wave
    }

    /// Shifts one frame per lane and then latches once through the shared
    /// control group, so that all lanes reach their outputs together.
    pub fn write_exact(&mut self, frames: [[u8; N]; LANES]) -> (wave: Vec<PinWrite>)
        ensures
            wave@ == old(self).frames_wave(frame_rows(frames)) + old(self).ctrl.latch_wave(),
            final(self).same_wiring(old(self)),
            forall|l: int|
                0 <= l < LANES ==> (#[trigger] final(self).lanes[l]).driven() == level_after_frame(
                    old(self).lanes[l].driven(),
                    frames[l]@,
                ),
    {
        let mut wave = self.shift_exact(frames);
        let mut latch = self.ctrl.latch_all();
        wave.append(&mut latch);
        wave
    }

    /// Empties the shift registers of all lanes through the shared clear
    /// line, if there is one. The outputs keep what was latched.
    pub fn clear_all(&mut self) -> (wave: Vec<PinWrite>)
        ensures
            wave@ == old(self).ctrl.clear_wave(),
            *final(self) == *old(self),
    {
        self.ctrl.clear_all()
    }
}

} // verus!
