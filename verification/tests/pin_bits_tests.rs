use esp_disp_driver::bits::{bit_of_u16, bit_of_u32, bit_of_u8};
use esp_disp_driver::pin::{
    default_input_cfg, default_output_cfg, DriveMode, InputCfg, Level, OutputCfg, Pull,
};

#[test]
fn level_and_bool_agree() {
    assert!(Level::High.is_high());
    assert!(!Level::Low.is_high());
    assert_eq!(Level::from_bool(true), Level::High);
    assert_eq!(Level::from_bool(false), Level::Low);
}

#[test]
fn default_configurations() {
    assert_eq!(
        default_output_cfg(),
        OutputCfg { drive_mode: DriveMode::PushPull, pull: Pull::Floating }
    );
    assert_eq!(default_input_cfg(), InputCfg { pull: Pull::Floating });
}

#[test]
fn bit_of_picks_single_bits() {
    assert!(bit_of_u8(0b0000_0001, 0));
    assert!(!bit_of_u8(0b0000_0001, 1));
    assert!(bit_of_u8(0x80, 7));
    assert!(!bit_of_u8(0x7F, 7));
    assert!(bit_of_u16(0x8000, 15));
    assert!(!bit_of_u16(0x8000, 14));
    assert!(bit_of_u32(0x8000_0000, 31));
    assert!(bit_of_u32(0x0001_0000, 16));
    assert!(!bit_of_u32(0x0001_0000, 15));
}
