use esp_disp_driver::demo::pure_color::{construct_bw_pixel_writer_def_pinout, display_pure_color};
use esp_disp_driver::display::backend::sipo::{BwPixelWriter8h8v1ch8, VgaHwResources};
use esp_disp_driver::display::drawer::Drawer;
use esp_disp_driver::display::pix_writer::PixelWriter;
use esp_disp_driver::display::pix_writer_impl::{
    construct_default_bw_pixel_writer, construct_default_bw_pixel_writer_from_sipo, BwPixelWriter,
    BwWriterCfg,
};
use esp_disp_driver::pin::{Level, PinWrite};
use esp_disp_driver::shift_register::{ChainWiring, ShiftChain};
use esp_disp_driver::sipo::{ControlGroup, ControlPinCfg, SerLane};

fn resources() -> VgaHwResources {
    VgaHwResources {
        rclk: 35,
        srclk: 21,
        srclr_al: 47,
        data_ser: 48,
        i_addr_ser: 45,
        j_addr_ser: 0,
    }
}

struct Display {
    color: ShiftChain<1>,
    v_addr: ShiftChain<1>,
    h_addr: ShiftChain<1>,
}

fn display() -> Display {
    let chain = |ser: u8| {
        ShiftChain::<1>::new(ChainWiring {
            ser,
            srclk: 21,
            rclk: Some(35),
            srclr: Some(47),
            clr_active_low: true,
        })
    };
    Display { color: chain(48), v_addr: chain(45), h_addr: chain(0) }
}

fn feed(display: &mut Display, wave: &[PinWrite]) {
    display.color.feed(wave);
    display.v_addr.feed(wave);
    display.h_addr.feed(wave);
}

fn shown(display: &Display) -> (u8, u8, u8) {
    (display.h_addr.output(0), display.v_addr.output(0), display.color.output(0))
}

#[test]
fn from_resources_wires_the_bank() {
    let w = BwPixelWriter8h8v1ch8::from_resources(resources());
    assert_eq!(w.p_sipo_bank.lanes[0].pin(), 48);
    assert_eq!(w.p_sipo_bank.lanes[1].pin(), 45);
    assert_eq!(w.p_sipo_bank.lanes[2].pin(), 0);
    assert_eq!(w.p_sipo_bank.ctrl.shift.pin(), 21);
    assert_eq!(w.p_sipo_bank.ctrl.latch.as_ref().map(|l| l.pin()), Some(35));
    assert_eq!(w.p_sipo_bank.ctrl.clear.as_ref().map(|c| c.pin()), Some(47));
    assert_eq!(w.p_sipo_bank.ctrl.clear.as_ref().map(|c| c.active_low()), Some(true));
    assert!(w.pending.is_empty());
}

#[test]
fn sipo_writer_declares_its_ranges() {
    let w = BwPixelWriter8h8v1ch8::from_resources(resources());
    assert_eq!(w.addr_range(), ((0, 150), (0, 200)));
    assert_eq!(w.color_range(), (0, 255));
}

#[test]
fn sipo_write_pixel_queues_one_transaction() {
    let mut w = BwPixelWriter8h8v1ch8::from_resources(resources());
    w.write_pixel(5, 3, 200);
    assert_eq!(w.pending.len(), 8 * (3 + 2) + 2);
    assert_eq!(w.pending[0], PinWrite { pin: 48, level: true });
    assert_eq!(w.pending[1], PinWrite { pin: 45, level: false });
    assert_eq!(w.pending[2], PinWrite { pin: 0, level: false });
    assert_eq!(w.pending[3], PinWrite { pin: 21, level: true });
    assert_eq!(w.pending[4], PinWrite { pin: 21, level: false });
    assert_eq!(w.pending[40], PinWrite { pin: 35, level: true });
    assert_eq!(w.pending[41], PinWrite { pin: 35, level: false });
}

#[test]
fn sipo_write_pixel_shows_address_and_colour_together() {
    let mut w = BwPixelWriter8h8v1ch8::from_resources(resources());
    let mut d = display();
    w.write_pixel(5, 3, 200);
    let wave = w.take_pending();
    feed(&mut d, &wave[..wave.len() - 2]);
    assert_eq!(shown(&d), (0, 0, 0));
    feed(&mut d, &wave[wave.len() - 2..]);
    assert_eq!(shown(&d), (5, 3, 200));

    w.write_pixel(200, 150, 255);
    let wave = w.take_pending();
    feed(&mut d, &wave[..wave.len() - 2]);
    assert_eq!(shown(&d), (5, 3, 200));
    feed(&mut d, &wave[wave.len() - 2..]);
    assert_eq!(shown(&d), (200, 150, 255));
}

#[test]
fn sipo_write_pixel_out_of_range_is_rejected() {
    let mut w = BwPixelWriter8h8v1ch8::from_resources(resources());
    w.write_pixel(201, 0, 9);
    w.write_pixel(0, 151, 9);
    w.write_pixel(255, 255, 9);
    assert!(w.pending.is_empty());
    assert!(!w.p_sipo_bank.lanes[0].level());
    w.write_pixel(200, 150, 9);
    assert_eq!(w.pending.len(), 42);
}

#[test]
fn take_pending_hands_over_and_empties_the_queue() {
    let mut w = BwPixelWriter8h8v1ch8::from_resources(resources());
    assert_eq!(w.take_pending(), vec![]);
    w.write_pixel(1, 2, 3);
    w.write_pixel(4, 5, 6);
    let wave = w.take_pending();
    assert_eq!(wave.len(), 84);
    assert!(w.pending.is_empty());
    assert_eq!(w.take_pending(), vec![]);
    let mut d = display();
    feed(&mut d, &wave);
    assert_eq!(shown(&d), (4, 5, 6));
}

#[test]
fn sipo_lanes_rest_at_the_last_bit_sent() {
    let mut w = BwPixelWriter8h8v1ch8::from_resources(resources());
    w.write_pixel(4, 3, 201);
    assert!(w.p_sipo_bank.lanes[0].level());
    assert!(w.p_sipo_bank.lanes[1].level());
    assert!(!w.p_sipo_bank.lanes[2].level());
}

#[test]
fn drawer_draw_rectangle_on_sipo_writer_walks_column_by_column() {
    let mut w = BwPixelWriter8h8v1ch8::from_resources(resources());
    let mut d = display();
    {
        let mut drawer = Drawer::new(&mut w);
        drawer.draw_rectangle(10, 20, 2, 3, 7);
    }
    let wave = w.take_pending();
    assert_eq!(wave.len(), 6 * 42);
    let expected = [(10, 20), (10, 21), (10, 22), (11, 20), (11, 21), (11, 22)];
    for (k, (h, v)) in expected.iter().enumerate() {
        feed(&mut d, &wave[42 * k..42 * (k + 1)]);
        assert_eq!(shown(&d), (*h, *v, 7));
    }
}

#[test]
fn drawer_fill_screen_on_sipo_writer_walks_row_by_row() {
    let mut w = BwPixelWriter8h8v1ch8::from_resources(resources());
    let mut d = display();
    {
        let mut drawer = Drawer::new(&mut w);
        drawer.fill_screen(1);
    }
    let wave = w.take_pending();
    assert_eq!(wave.len(), 201 * 151 * 42);
    feed(&mut d, &wave[..42]);
    assert_eq!(shown(&d), (0, 0, 1));
    feed(&mut d, &wave[42..84]);
    assert_eq!(shown(&d), (1, 0, 1));
    feed(&mut d, &wave[42 * 201..42 * 202]);
    assert_eq!(shown(&d), (0, 1, 1));
    feed(&mut d, &wave[wave.len() - 42..]);
    assert_eq!(shown(&d), (200, 150, 1));
}

#[test]
fn display_pure_color_offers_every_location_once() {
    let mut w = BwPixelWriter8h8v1ch8::from_resources(resources());
    display_pure_color(128, &mut w);
    let wave = w.take_pending();
    assert_eq!(wave.len(), 201 * 151 * 42);
    let mut d = display();
    feed(&mut d, &wave[..42]);
    assert_eq!(shown(&d), (0, 0, 128));
    feed(&mut d, &wave[42 * 200..42 * 201]);
    assert_eq!(shown(&d), (200, 0, 128));
    feed(&mut d, &wave[wave.len() - 42..]);
    assert_eq!(shown(&d), (200, 150, 128));
}

#[test]
fn default_writer_from_lanes_orders_colour_vertical_horizontal() {
    let ctrl = ControlGroup::from_cfg(ControlPinCfg {
        srclk: 21,
        rclk: Some(35),
        srclr: Some(47),
        clr_active_low: true,
    });
    let mut w: BwPixelWriter = construct_default_bw_pixel_writer_from_sipo(
        SerLane::from_pin(0),
        SerLane::from_pin(45),
        SerLane::from_pin(48),
        ctrl,
    );
    assert_eq!(w.p_sipo_bank.lanes[0].pin(), 48);
    assert_eq!(w.p_sipo_bank.lanes[1].pin(), 45);
    assert_eq!(w.p_sipo_bank.lanes[2].pin(), 0);
    assert!(w.pending.is_empty());
    let mut d = display();
    w.write_pixel(5, 3, 200);
    feed(&mut d, &w.take_pending());
    assert_eq!(shown(&d), (5, 3, 200));
}

#[test]
fn default_writer_from_cfg_matches_from_resources() {
    let mut a = construct_default_bw_pixel_writer(BwWriterCfg {
        h_ser: 0,
        v_ser: 45,
        bw_ser: 48,
        ctrl: ControlPinCfg { srclk: 21, rclk: Some(35), srclr: Some(47), clr_active_low: true },
    });
    let mut b = BwPixelWriter8h8v1ch8::from_resources(resources());
    a.write_pixel(17, 99, 42);
    b.write_pixel(17, 99, 42);
    assert_eq!(a.take_pending(), b.take_pending());
}

#[test]
fn default_pinout_is_that_of_the_demo_board() {
    let mut w = construct_bw_pixel_writer_def_pinout();
    assert_eq!(w.p_sipo_bank.lanes[0].pin(), 0);
    assert_eq!(w.p_sipo_bank.lanes[1].pin(), 48);
    assert_eq!(w.p_sipo_bank.lanes[2].pin(), 20);
    assert!(!w.p_sipo_bank.lanes[0].level());
    assert!(!w.p_sipo_bank.lanes[1].level());
    assert!(!w.p_sipo_bank.lanes[2].level());
    assert_eq!(w.p_sipo_bank.ctrl.shift.pin(), 21);
    assert_eq!(w.p_sipo_bank.ctrl.latch.as_ref().map(|l| l.pin()), Some(39));
    assert_eq!(w.p_sipo_bank.ctrl.latch.as_ref().map(|l| l.rest_level()), Some(Level::Low));
    assert_eq!(w.p_sipo_bank.ctrl.clear.as_ref().map(|c| c.pin()), Some(40));
    assert_eq!(w.p_sipo_bank.ctrl.clear.as_ref().map(|c| c.active_low()), Some(true));
    assert_eq!(w.p_sipo_bank.ctrl.clear.as_ref().map(|c| c.rest_level()), Some(Level::High));
    assert!(w.pending.is_empty());

    let mut same = construct_default_bw_pixel_writer(BwWriterCfg {
        h_ser: 20,
        v_ser: 48,
        bw_ser: 0,
        ctrl: ControlPinCfg { srclk: 21, rclk: Some(39), srclr: Some(40), clr_active_low: true },
    });
    w.write_pixel(1, 2, 3);
    same.write_pixel(1, 2, 3);
    assert_eq!(w.take_pending(), same.take_pending());
}

#[test]
fn default_pinout_shows_a_pixel_on_its_three_chains() {
    let chain = |ser: u8| {
        ShiftChain::<1>::new(ChainWiring {
            ser,
            srclk: 21,
            rclk: Some(39),
            srclr: Some(40),
            clr_active_low: true,
        })
    };
    let mut d = Display { color: chain(0), v_addr: chain(48), h_addr: chain(20) };
    let mut w = construct_bw_pixel_writer_def_pinout();
    w.write_pixel(5, 3, 200);
    feed(&mut d, &w.take_pending());
    assert_eq!(shown(&d), (5, 3, 200));
}

#[test]
fn drawer_fill_row_offers_one_row_from_the_left() {
    let mut w = BwPixelWriter8h8v1ch8::from_resources(resources());
    let mut d = display();
    {
        let mut drawer = Drawer::new(&mut w);
        drawer.fill_row(7, 9);
    }
    let wave = w.take_pending();
    assert_eq!(wave.len(), 201 * 42);
    feed(&mut d, &wave[..42]);
    assert_eq!(shown(&d), (0, 7, 9));
    feed(&mut d, &wave[42..84]);
    assert_eq!(shown(&d), (1, 7, 9));
    feed(&mut d, &wave[wave.len() - 42..]);
    assert_eq!(shown(&d), (200, 7, 9));
}

#[test]
fn drawer_fill_row_outside_the_rows_is_rejected() {
    let mut w = BwPixelWriter8h8v1ch8::from_resources(resources());
    {
        let mut drawer = Drawer::new(&mut w);
        drawer.fill_row(151, 9);
    }
    assert!(w.pending.is_empty());
}
