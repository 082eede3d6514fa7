use esp_disp_driver::pin::{DriveMode, Level, OutputCfg, PinWrite, Pull};
use esp_disp_driver::shift_register::{ChainWiring, ShiftChain};
use esp_disp_driver::sipo::{
    shiftreg_output_cfg, ClearLine, ControlGroup, ControlPinCfg, LatchLine, ParallelBank, SerLane,
    ShiftClockLine, SipoSingle,
};

fn control(srclk: u8, rclk: Option<u8>, srclr: Option<u8>) -> ControlGroup {
    ControlGroup::from_cfg(ControlPinCfg { srclk, rclk, srclr, clr_active_low: true })
}

fn wiring(ser: u8, srclk: u8, rclk: Option<u8>, srclr: Option<u8>) -> ChainWiring {
    ChainWiring { ser, srclk, rclk, srclr, clr_active_low: true }
}

fn hi(pin: u8) -> PinWrite {
    PinWrite { pin, level: true }
}

fn lo(pin: u8) -> PinWrite {
    PinWrite { pin, level: false }
}

#[test]
fn shift_register_lines_are_open_drain_without_pull() {
    let cfg = OutputCfg { drive_mode: DriveMode::OpenDrain, pull: Pull::Floating };
    assert_eq!(shiftreg_output_cfg(), cfg);
    assert_eq!(LatchLine::from_pin(1).cfg(), cfg);
    assert_eq!(ClearLine::from_pin(2, true).cfg(), cfg);
    assert_eq!(ShiftClockLine::from_pin(3).cfg(), cfg);
    assert_eq!(SerLane::from_pin(4).cfg(), cfg);
    let own = OutputCfg { drive_mode: DriveMode::PushPull, pull: Pull::Up };
    assert_eq!(LatchLine::from_pin_w_cfg(1, own).cfg(), own);
    assert_eq!(ClearLine::from_pin_w_cfg(2, true, own).cfg(), own);
    assert_eq!(SerLane::from_pin_w_cfg(4, own).cfg(), own);
}

#[test]
fn latch_pulse_goes_high_then_low() {
    let mut latch = LatchLine::from_pin(35);
    assert_eq!(latch.pin(), 35);
    assert_eq!(latch.rest_level(), Level::Low);
    assert_eq!(latch.pulse(), [hi(35), lo(35)]);
    assert_eq!(latch.pulse(), [hi(35), lo(35)]);
}

#[test]
fn clear_pulse_follows_polarity() {
    let mut active_low = ClearLine::from_pin(47, true);
    assert!(active_low.active_low());
    assert_eq!(active_low.rest_level(), Level::High);
    assert_eq!(active_low.pulse(), [lo(47), hi(47)]);
    let mut active_high = ClearLine::from_pin(47, false);
    assert!(!active_high.active_low());
    assert_eq!(active_high.rest_level(), Level::Low);
    assert_eq!(active_high.pulse(), [hi(47), lo(47)]);
}

#[test]
fn clock_tick_goes_high_then_low() {
    let mut clock = ShiftClockLine::from_pin(21);
    assert_eq!(clock.pin(), 21);
    assert_eq!(clock.rest_level(), Level::Low);
    assert_eq!(clock.tick(), [hi(21), lo(21)]);
}

#[test]
fn lane_set_bit_drives_the_line() {
    let mut lane = SerLane::from_pin(48);
    assert_eq!(lane.pin(), 48);
    assert!(!lane.level());
    assert_eq!(lane.set_bit(true), hi(48));
    assert!(lane.level());
    assert_eq!(lane.set_bit(false), lo(48));
    assert!(!lane.level());
}

#[test]
fn control_group_is_built_from_its_pins() {
    let group = ControlGroup::from_cfg(ControlPinCfg {
        srclk: 21,
        rclk: Some(35),
        srclr: Some(47),
        clr_active_low: true,
    });
    assert_eq!(group.shift.pin(), 21);
    assert_eq!(group.latch.as_ref().map(|l| l.pin()), Some(35));
    assert_eq!(group.clear.as_ref().map(|c| c.pin()), Some(47));
    assert_eq!(group.clear.as_ref().map(|c| c.active_low()), Some(true));

    let bare = ControlGroup::from_cfg(ControlPinCfg {
        srclk: 21,
        rclk: None,
        srclr: None,
        clr_active_low: false,
    });
    assert!(bare.latch.is_none());
    assert!(bare.clear.is_none());
}

#[test]
fn latch_all_and_clear_all_pulse_their_lines() {
    let mut group = control(21, Some(35), Some(47));
    assert_eq!(group.latch_all(), vec![hi(35), lo(35)]);
    assert_eq!(group.clear_all(), vec![lo(47), hi(47)]);
}

#[test]
fn latch_all_and_clear_all_without_lines_write_nothing() {
    let mut group = control(21, None, None);
    assert_eq!(group.latch_all(), vec![]);
    assert_eq!(group.clear_all(), vec![]);
    assert!(group.latch.is_none());
    assert!(group.clear.is_none());
}

#[test]
fn shift_byte_sends_most_significant_bit_first() {
    let mut chain = SipoSingle::<1>::new(SerLane::from_pin(4), control(5, Some(6), None));
    let wave = chain.shift_byte(0b1011_0010);
    let bits = [true, false, true, true, false, false, true, false];
    let mut expected = Vec::new();
    for bit in bits {
        expected.push(PinWrite { pin: 4, level: bit });
        expected.push(hi(5));
        expected.push(lo(5));
    }
    assert_eq!(wave, expected);
    assert!(!chain.lane.level());
}

#[test]
fn shift_exact_sends_first_byte_first() {
    let mut chain = SipoSingle::<2>::new(SerLane::from_pin(4), control(5, Some(6), None));
    let wave = chain.shift_exact(&[0x80, 0x01]);
    assert_eq!(wave.len(), 16 * 3);
    assert_eq!(wave[0], hi(4));
    assert_eq!(wave[1], hi(5));
    assert_eq!(wave[2], lo(5));
    for tick in 1..15 {
        assert_eq!(wave[3 * tick], lo(4));
    }
    assert_eq!(wave[3 * 15], hi(4));
    assert!(chain.lane.level());
}

#[test]
fn shift_exact_of_empty_frame_writes_nothing() {
    let mut chain = SipoSingle::<0>::new(SerLane::from_pin(4), control(5, Some(6), None));
    assert_eq!(chain.shift_exact(&[]), vec![]);
    assert_eq!(chain.write_exact(&[]), vec![hi(6), lo(6)]);
}

#[test]
fn write_exact_is_shift_then_latch() {
    let mut a = SipoSingle::<2>::new(SerLane::from_pin(4), control(5, Some(6), None));
    let mut b = SipoSingle::<2>::new(SerLane::from_pin(4), control(5, Some(6), None));
    let written = a.write_exact(&[0x12, 0x34]);
    let mut expected = b.shift_exact(&[0x12, 0x34]);
    expected.extend(b.ctrl.latch_all());
    assert_eq!(written, expected);
    assert_eq!(written[written.len() - 2], hi(6));
    assert_eq!(written[written.len() - 1], lo(6));
}

#[test]
fn write_exact_without_latch_line_only_shifts() {
    let mut a = SipoSingle::<1>::new(SerLane::from_pin(4), control(5, None, None));
    let written = a.write_exact(&[0xFF]);
    assert_eq!(written.len(), 8 * 3);
}

#[test]
fn single_chain_frame_reaches_far_and_near_chip() {
    let mut chain = SipoSingle::<2>::new(SerLane::from_pin(4), control(5, Some(6), Some(7)));
    let mut chips = ShiftChain::<2>::new(wiring(4, 5, Some(6), Some(7)));

    let shifted = chain.shift_exact(&[0xA5, 0x3C]);
    chips.feed(&shifted);
    assert_eq!(chips.output(0), 0x00);
    assert_eq!(chips.output(1), 0x00);
    assert_eq!(chips.staged(1), 0xA5);
    assert_eq!(chips.staged(0), 0x3C);

    let latched = chain.ctrl.latch_all();
    chips.feed(&latched);
    assert_eq!(chips.output(1), 0xA5);
    assert_eq!(chips.output(0), 0x3C);
}

#[test]
fn single_chain_write_exact_reaches_outputs_in_one_go() {
    let mut chain = SipoSingle::<3>::new(SerLane::from_pin(4), control(5, Some(6), Some(7)));
    let mut chips = ShiftChain::<3>::new(wiring(4, 5, Some(6), Some(7)));
    chips.feed(&chain.write_exact(&[0x01, 0x02, 0x03]));
    assert_eq!(chips.output(2), 0x01);
    assert_eq!(chips.output(1), 0x02);
    assert_eq!(chips.output(0), 0x03);
    chips.feed(&chain.write_exact(&[0xFE, 0xDC, 0xBA]));
    assert_eq!(chips.output(2), 0xFE);
    assert_eq!(chips.output(1), 0xDC);
    assert_eq!(chips.output(0), 0xBA);
}

#[test]
fn clear_empties_the_stages_and_keeps_the_outputs() {
    let mut chain = SipoSingle::<2>::new(SerLane::from_pin(4), control(5, Some(6), Some(7)));
    let mut chips = ShiftChain::<2>::new(wiring(4, 5, Some(6), Some(7)));
    chips.feed(&chain.write_exact(&[0xA5, 0x3C]));
    let wave = chain.clear();
    assert_eq!(wave, vec![lo(7), hi(7)]);
    chips.feed(&wave);
    assert_eq!(chips.staged(0), 0x00);
    assert_eq!(chips.staged(1), 0x00);
    assert_eq!(chips.output(1), 0xA5);
    assert_eq!(chips.output(0), 0x3C);
}

#[test]
fn bank_of_three_lanes_commits_all_lanes_on_one_latch() {
    let lanes = [SerLane::from_pin(10), SerLane::from_pin(11), SerLane::from_pin(12)];
    let mut bank = ParallelBank::<3, 1>::new(lanes, control(1, Some(2), Some(3)));
    let mut chips = [
        ShiftChain::<1>::new(wiring(10, 1, Some(2), Some(3))),
        ShiftChain::<1>::new(wiring(11, 1, Some(2), Some(3))),
        ShiftChain::<1>::new(wiring(12, 1, Some(2), Some(3))),
    ];
    let shifted = bank.shift_exact([[0xFF], [0x00], [0x0F]]);
    assert_eq!(shifted.len(), 8 * (3 + 2));
    for chip in chips.iter_mut() {
        chip.feed(&shifted);
        assert_eq!(chip.output(0), 0x00);
    }
    let latched = bank.ctrl.latch_all();
    assert_eq!(latched, vec![hi(2), lo(2)]);
    for chip in chips.iter_mut() {
        chip.feed(&latched);
    }
    assert_eq!(chips[0].output(0), 0xFF);
    assert_eq!(chips[1].output(0), 0x00);
    assert_eq!(chips[2].output(0), 0x0F);
}

#[test]
fn bank_drives_every_lane_before_each_tick() {
    let lanes = [SerLane::from_pin(10), SerLane::from_pin(11)];
    let mut bank = ParallelBank::<2, 1>::new(lanes, control(1, Some(2), None));
    let wave = bank.shift_exact([[0x80], [0x01]]);
    assert_eq!(wave.len(), 8 * 4);
    assert_eq!(&wave[0..4], &[hi(10), lo(11), hi(1), lo(1)]);
    assert_eq!(&wave[4..8], &[lo(10), lo(11), hi(1), lo(1)]);
    assert_eq!(&wave[28..32], &[lo(10), hi(11), hi(1), lo(1)]);
    assert!(!bank.lanes[0].level());
    assert!(bank.lanes[1].level());
}

#[test]
fn bank_write_exact_on_two_byte_lanes() {
    let lanes = [SerLane::from_pin(10), SerLane::from_pin(11)];
    let mut bank = ParallelBank::<2, 2>::new(lanes, control(1, Some(2), Some(3)));
    let mut first = ShiftChain::<2>::new(wiring(10, 1, Some(2), Some(3)));
    let mut second = ShiftChain::<2>::new(wiring(11, 1, Some(2), Some(3)));
    let wave = bank.write_exact([[0xA5, 0x3C], [0x12, 0x34]]);
    first.feed(&wave);
    second.feed(&wave);
    assert_eq!(first.output(1), 0xA5);
    assert_eq!(first.output(0), 0x3C);
    assert_eq!(second.output(1), 0x12);
    assert_eq!(second.output(0), 0x34);
    let cleared = bank.clear_all();
    assert_eq!(cleared, vec![lo(3), hi(3)]);
    first.feed(&cleared);
    assert_eq!(first.staged(0), 0);
    assert_eq!(first.output(0), 0x3C);
}

#[test]
fn latch_of_a_single_chain_pulses_the_latch_line() {
    let mut chain = SipoSingle::<1>::new(SerLane::from_pin(4), control(5, Some(6), None));
    assert_eq!(chain.latch(), vec![hi(6), lo(6)]);
    let mut bare = SipoSingle::<1>::new(SerLane::from_pin(4), control(5, None, None));
    assert_eq!(bare.latch(), vec![]);
    assert_eq!(bare.clear(), vec![]);
}
