use esp_disp_driver::display::backend::bus_dac::{
    init_double_fb, BwPixelWriter8h8v1ch4, DoubleFb, FrameBuf, VgaHwResources, FB_HEIGHT,
    FB_WIDTH,
};
use esp_disp_driver::display::drawer::Drawer;
use esp_disp_driver::display::pix_writer::PixelWriter;
use esp_disp_driver::pin::{DriveMode, InputCfg, Level, OutputCfg, PinWrite, Pull};

fn levels_of(value: u8) -> [bool; 8] {
    let mut levels = [false; 8];
    for (i, level) in levels.iter_mut().enumerate() {
        *level = (value >> i) & 1 == 1;
    }
    levels
}

fn blank() -> FrameBuf {
    [[0u8; FB_WIDTH]; FB_HEIGHT]
}

fn writer() -> BwPixelWriter8h8v1ch4 {
    BwPixelWriter8h8v1ch4::with_hw_resources(
        VgaHwResources {
            haddr_pins: [21, 47, 48, 45, 0, 35, 36, 37],
            vaddr_pins: [14, 13, 12, 11, 10, 9, 46, 3],
            data_pins: [4, 5, 6, 7],
        },
        DoubleFb::new(blank()),
        None,
        None,
        None,
    )
}

fn data_nibble(writer: &BwPixelWriter8h8v1ch4) -> u8 {
    let mut value = 0;
    for (i, level) in writer.data_writer.levels().iter().enumerate() {
        if *level {
            value |= 1 << i;
        }
    }
    value
}

fn inactive(writer: &mut BwPixelWriter8h8v1ch4) -> FrameBuf {
    writer.dbf.with_inactive(|f| *f)
}

#[test]
fn frame_is_201_by_151() {
    assert_eq!(FB_WIDTH, 201);
    assert_eq!(FB_HEIGHT, 151);
    let frame: FrameBuf = blank();
    assert_eq!(frame.len(), 151);
    assert_eq!(frame[0].len(), 201);
}

#[test]
fn with_hw_resources_uses_defaults_where_nothing_is_given() {
    let w = writer();
    assert_eq!(w.haddr_reader.pins(), &[21, 47, 48, 45, 0, 35, 36, 37]);
    assert_eq!(w.vaddr_reader.pins(), &[14, 13, 12, 11, 10, 9, 46, 3]);
    assert_eq!(w.data_writer.pins(), &[4, 5, 6, 7]);
    assert_eq!(w.haddr_reader.cfg(), InputCfg { pull: Pull::Floating });
    assert_eq!(w.vaddr_reader.cfg(), InputCfg { pull: Pull::Floating });
    assert_eq!(
        w.data_writer.cfg(),
        OutputCfg { drive_mode: DriveMode::PushPull, pull: Pull::Floating }
    );
    assert_eq!(w.data_writer.levels(), [false; 4]);
}

#[test]
fn with_hw_resources_takes_what_is_given() {
    let w = BwPixelWriter8h8v1ch4::with_hw_resources(
        VgaHwResources { haddr_pins: [0; 8], vaddr_pins: [1; 8], data_pins: [2; 4] },
        DoubleFb::new(blank()),
        Some(InputCfg { pull: Pull::Down }),
        Some(OutputCfg { drive_mode: DriveMode::OpenDrain, pull: Pull::Up }),
        Some(Level::High),
    );
    assert_eq!(w.haddr_reader.cfg(), InputCfg { pull: Pull::Down });
    assert_eq!(w.vaddr_reader.cfg(), InputCfg { pull: Pull::Down });
    assert_eq!(
        w.data_writer.cfg(),
        OutputCfg { drive_mode: DriveMode::OpenDrain, pull: Pull::Up }
    );
    assert_eq!(w.data_writer.levels(), [true; 4]);
}

#[test]
fn addr_range_of_201_by_151_domain() {
    let w = writer();
    assert_eq!(w.addr_range(), ((0, 150), (0, 200)));
    assert_eq!(w.color_range(), (0, 255));
}

#[test]
fn write_pixel_sets_one_cell_of_the_inactive_half() {
    let mut w = writer();
    w.write_pixel(5, 3, 200);
    let frame = inactive(&mut w);
    for (v, row) in frame.iter().enumerate() {
        for (h, cell) in row.iter().enumerate() {
            assert_eq!(*cell, if h == 5 && v == 3 { 200 } else { 0 });
        }
    }
    assert_eq!(w.dbf.with_active(|f| *f), blank());
}

#[test]
fn write_pixel_reaches_the_corners() {
    let mut w = writer();
    w.write_pixel(0, 0, 1);
    w.write_pixel(200, 0, 2);
    w.write_pixel(0, 150, 3);
    w.write_pixel(200, 150, 4);
    let frame = inactive(&mut w);
    assert_eq!(frame[0][0], 1);
    assert_eq!(frame[0][200], 2);
    assert_eq!(frame[150][0], 3);
    assert_eq!(frame[150][200], 4);
}

#[test]
fn write_pixel_out_of_range_is_rejected() {
    let mut w = writer();
    w.write_pixel(201, 0, 9);
    w.write_pixel(0, 151, 9);
    w.write_pixel(255, 255, 9);
    w.write_pixel(150, 200, 9);
    assert_eq!(inactive(&mut w), blank());
    assert_eq!(w.dbf.with_active(|f| *f), blank());
}

#[test]
fn written_pixel_is_scanned_only_after_the_swap() {
    let mut w = writer();
    w.write_pixel(5, 3, 200);
    let wave = w.scan_step(levels_of(5), levels_of(3));
    assert_eq!(wave.len(), 4);
    assert_eq!(data_nibble(&w), 0);

    w.present_frame();
    let wave = w.scan_step(levels_of(5), levels_of(3));
    assert_eq!(
        wave,
        vec![
            PinWrite { pin: 4, level: false },
            PinWrite { pin: 5, level: false },
            PinWrite { pin: 6, level: false },
            PinWrite { pin: 7, level: true },
        ]
    );
    assert_eq!(data_nibble(&w), 200 & 0x0F);

    w.scan_step(levels_of(3), levels_of(5));
    assert_eq!(data_nibble(&w), 0);
    w.scan_step(levels_of(6), levels_of(3));
    assert_eq!(data_nibble(&w), 0);
}

#[test]
fn scan_drives_the_low_four_bits_of_the_cell() {
    let mut w = writer();
    w.write_pixel(5, 3, 13);
    w.write_pixel(6, 3, 0xF0);
    w.write_pixel(7, 3, 0x1E);
    w.present_frame();
    w.scan_step(levels_of(5), levels_of(3));
    assert_eq!(data_nibble(&w), 13);
    w.scan_step(levels_of(6), levels_of(3));
    assert_eq!(data_nibble(&w), 0);
    w.scan_step(levels_of(7), levels_of(3));
    assert_eq!(data_nibble(&w), 0x0E);
}

#[test]
fn scan_step_skips_addresses_outside_the_frame() {
    let mut w = writer();
    w.write_pixel(200, 150, 0x0F);
    w.present_frame();
    w.scan_step(levels_of(200), levels_of(150));
    assert_eq!(data_nibble(&w), 0x0F);

    assert_eq!(w.scan_step(levels_of(201), levels_of(150)), vec![]);
    assert_eq!(data_nibble(&w), 0x0F);
    assert_eq!(w.scan_step(levels_of(200), levels_of(151)), vec![]);
    assert_eq!(data_nibble(&w), 0x0F);
    assert_eq!(w.scan_step(levels_of(255), levels_of(255)), vec![]);
    assert_eq!(data_nibble(&w), 0x0F);

    w.scan_step(levels_of(0), levels_of(0));
    assert_eq!(data_nibble(&w), 0);
}

#[test]
fn scan_step_records_the_sampled_addresses() {
    let mut w = writer();
    w.scan_step(levels_of(0xA5), levels_of(0x3C));
    assert_eq!(w.haddr_reader.read_u8(), 0xA5);
    assert_eq!(w.vaddr_reader.read_u8(), 0x3C);
}

#[test]
fn present_frame_swaps_the_halves() {
    let mut w = writer();
    w.write_pixel(1, 2, 3);
    w.present_frame();
    assert_eq!(w.dbf.with_active(|f| f[2][1]), 3);
    assert_eq!(inactive(&mut w), blank());
    w.present_frame();
    assert_eq!(w.dbf.with_active(|f| *f), blank());
    assert_eq!(inactive(&mut w)[2][1], 3);
}

#[test]
fn drawer_fill_screen_fills_every_cell_of_the_inactive_half() {
    let mut w = writer();
    {
        let mut drawer = Drawer::new(&mut w);
        drawer.fill_screen(9);
    }
    assert_eq!(inactive(&mut w), [[9u8; FB_WIDTH]; FB_HEIGHT]);
    assert_eq!(w.dbf.with_active(|f| *f), blank());
}

#[test]
fn drawer_draw_rectangle_fills_width_columns_and_height_rows() {
    let mut w = writer();
    {
        let mut drawer = Drawer::new(&mut w);
        drawer.draw_rectangle(10, 20, 3, 2, 7);
    }
    let frame = inactive(&mut w);
    for (v, row) in frame.iter().enumerate() {
        for (h, cell) in row.iter().enumerate() {
            let inside = (10..=12).contains(&h) && (20..=21).contains(&v);
            assert_eq!(*cell, if inside { 7 } else { 0 });
        }
    }
}

#[test]
fn drawer_draw_rectangle_clips_at_the_frame() {
    let mut w = writer();
    {
        let mut drawer = Drawer::new(&mut w);
        drawer.draw_rectangle(199, 149, 10, 10, 5);
    }
    let frame = inactive(&mut w);
    let mut painted = 0;
    for row in frame.iter() {
        for cell in row.iter() {
            if *cell == 5 {
                painted += 1;
            }
        }
    }
    assert_eq!(painted, 4);
    assert_eq!(frame[149][199], 5);
    assert_eq!(frame[150][200], 5);
}

#[test]
fn drawer_draw_rectangle_of_no_width_draws_nothing() {
    let mut w = writer();
    {
        let mut drawer = Drawer::new(&mut w);
        drawer.draw_rectangle(10, 20, 0, 5, 7);
        drawer.draw_rectangle(10, 20, 5, 0, 7);
    }
    assert_eq!(inactive(&mut w), blank());
}

#[test]
fn drawer_write_pixel_passes_the_pixel_on() {
    let mut w = writer();
    {
        let mut drawer = Drawer::new(&mut w);
        drawer.write_pixel(5, 3, 200);
        drawer.write_pixel(250, 3, 200);
    }
    let frame = inactive(&mut w);
    assert_eq!(frame[3][5], 200);
    assert_eq!(frame[5][3], 0);
}

#[test]
fn init_double_fb_is_dark_on_both_halves() {
    let mut fb = init_double_fb();
    assert_eq!(fb.with_active(|f| *f), blank());
    assert_eq!(fb.with_inactive(|f| *f), blank());
}

#[test]
fn drawer_fill_row_fills_one_row_of_the_inactive_half() {
    let mut w = writer();
    {
        let mut drawer = Drawer::new(&mut w);
        drawer.fill_row(3, 6);
    }
    let frame = inactive(&mut w);
    for (v, row) in frame.iter().enumerate() {
        for cell in row.iter() {
            assert_eq!(*cell, if v == 3 { 6 } else { 0 });
        }
    }
    assert_eq!(w.dbf.with_active(|f| *f), blank());
}

#[test]
fn only_present_frame_moves_the_selector() {
    let mut w = writer();
    w.dbf.with_inactive(|f| f[0][0] = 1);
    w.present_frame();
    w.dbf.with_inactive(|f| f[0][0] = 2);
    assert_eq!(w.dbf.with_active(|f| f[0][0]), 1);
    w.write_pixel(9, 9, 9);
    w.write_pixel(250, 250, 9);
    assert_eq!(w.dbf.with_active(|f| f[0][0]), 1);
    w.scan_step(levels_of(9), levels_of(9));
    w.scan_step(levels_of(250), levels_of(250));
    assert_eq!(w.dbf.with_active(|f| f[0][0]), 1);
    assert_eq!(w.dbf.with_inactive(|f| f[0][0]), 2);
    w.present_frame();
    assert_eq!(w.dbf.with_active(|f| f[0][0]), 2);
    assert_eq!(w.dbf.with_inactive(|f| f[0][0]), 1);
}
