use countup::countup::{Countup, Key};
use countup::render::{render_diff, render_split, Unit, COL_NUM, COL_PERIOD};

#[test]
fn split_rows_for_400_days() {
    // 400 days: one 365-day year, then 35 remaining: one 28-day month and
    // seven days.
    let m = render_split(400, &String::from("lbl"));
    assert_eq!(m.start, "lbl");
    assert_eq!(m.rows.len(), 3);
    assert_eq!(m.rows[0].value, 1);
    assert_eq!(m.rows[0].unit, Unit::Years);
    assert_eq!(m.rows[0].y, 24);
    assert_eq!(m.rows[1].value, 1);
    assert_eq!(m.rows[1].unit, Unit::Months);
    assert_eq!(m.rows[1].y, 40);
    assert_eq!(m.rows[2].value, 7);
    assert_eq!(m.rows[2].unit, Unit::Days);
    assert_eq!(m.rows[2].y, 56);
}

#[test]
fn diff_rows_for_400_days() {
    // Each number is computed from 400 alone: 400 days, 57 weeks, 14
    // months, 1 year — overlapping by design.
    let m = render_diff(400, &String::from("lbl"));
    assert_eq!(m.rows.len(), 4);
    assert_eq!(m.rows[0].value, 400);
    assert_eq!(m.rows[0].unit, Unit::Days);
    assert_eq!(m.rows[1].value, 57);
    assert_eq!(m.rows[1].unit, Unit::Weeks);
    assert_eq!(m.rows[2].value, 14);
    assert_eq!(m.rows[2].unit, Unit::Months);
    assert_eq!(m.rows[3].value, 1);
    assert_eq!(m.rows[3].unit, Unit::Years);
    assert_eq!(m.rows[3].y, 72);
}

#[test]
fn split_decomposes_for_many_inputs() {
    for d in [0u64, 1, 7, 27, 28, 29, 364, 365, 366, 400, 730, 10_000] {
        let m = render_split(d, &String::from("x"));
        let years = m.rows[0].value;
        let months = m.rows[1].value;
        let days = m.rows[2].value;
        assert_eq!(years * 365 + months * 28 + days, d);
        assert!(months <= 13);
        assert!(days < 28);
    }
}

#[test]
fn render_model_is_idempotent() {
    let mut c = Countup::new(400, String::from("25/11/2022"), 0);
    for _ in 0..10 {
        c.update_at(16_667, 0);
    }
    let m1 = c.render_model();
    let m2 = c.render_model();
    assert_eq!(m1.start, m2.start);
    assert_eq!(m1.rows, m2.rows);
}

#[test]
fn render_model_follows_mode() {
    let mut c = Countup::new(400, String::from("25/11/2022"), 0);
    let m = c.render_model();
    assert_eq!(m.rows.len(), 3);
    assert_eq!(m.start, "25/11/2022");
    c.on_key_pressed(vec![Key::Toggle]);
    let m = c.render_model();
    assert_eq!(m.rows.len(), 4);
    assert_eq!(m.rows[0].value, 0);
}

#[test]
fn column_constants_keep_layout() {
    assert_eq!(COL_NUM, 120);
    assert_eq!(COL_PERIOD, 128);
}
