use esp_disp_driver::display::backend::utils::DoubleBuffer;

#[test]
fn new_fills_both_slots_with_the_initial_value() {
    let mut db = DoubleBuffer::new(vec![1u8, 2, 3]);
    assert_eq!(db.with_active(|b| b.clone()), vec![1, 2, 3]);
    assert_eq!(db.with_inactive(|b| b.clone()), vec![1, 2, 3]);
}

#[test]
fn with_active_returns_what_the_closure_returns() {
    let db = DoubleBuffer::new(41u32);
    assert_eq!(db.with_active(|b| *b + 1), 42);
}

#[test]
fn with_inactive_writes_only_the_inactive_slot() {
    let mut db = DoubleBuffer::new(0u8);
    let before = db.with_inactive(|b| {
        let old = *b;
        *b = 7;
        old
    });
    assert_eq!(before, 0);
    assert_eq!(db.with_active(|b| *b), 0);
    assert_eq!(db.with_inactive(|b| *b), 7);
}

#[test]
fn swap_toggles_active_and_inactive_once_per_call() {
    let mut db = DoubleBuffer::new(0u8);
    db.with_inactive(|b| *b = 1);
    assert_eq!(db.with_active(|b| *b), 0);
    db.swap();
    assert_eq!(db.with_active(|b| *b), 1);
    assert_eq!(db.with_inactive(|b| *b), 0);
    db.swap();
    assert_eq!(db.with_active(|b| *b), 0);
    assert_eq!(db.with_inactive(|b| *b), 1);
    db.swap();
    db.swap();
    assert_eq!(db.with_active(|b| *b), 0);
}

#[test]
fn reader_sees_a_frame_only_after_it_was_swapped_in() {
    let mut db = DoubleBuffer::new([0u8; 4]);
    db.with_inactive(|b| b[0] = 10);
    assert_eq!(db.with_active(|b| *b), [0, 0, 0, 0]);
    db.with_inactive(|b| b[1] = 20);
    assert_eq!(db.with_active(|b| *b), [0, 0, 0, 0]);
    db.swap();
    assert_eq!(db.with_active(|b| *b), [10, 20, 0, 0]);
    db.with_inactive(|b| b[3] = 99);
    assert_eq!(db.with_active(|b| *b), [10, 20, 0, 0]);
    db.swap();
    assert_eq!(db.with_active(|b| *b), [0, 0, 0, 99]);
}
