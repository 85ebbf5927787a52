use countup::countup::{Countup, DisplayMode, Key};

fn fresh(days: u64, start_secs: i64) -> Countup {
    Countup::new(days, String::from("25/11/2022"), start_secs)
}

#[test]
fn new_starts_at_zero() {
    let c = fresh(5, 0);
    assert_eq!(c.days, 5);
    assert_eq!(c.current_days, 0);
    assert_eq!(c.next_inc, 0);
    assert_eq!(c.next_inc_speed, 1_000_000);
    assert_eq!(c.display_mode, DisplayMode::Split);
    assert!(!c.should_exit());
}

#[test]
fn new_budget_scales_with_years() {
    // 400 days span two started years: two seconds of animation.
    let c = fresh(400, 0);
    assert_eq!(c.next_inc_speed, 2_000_000);
    // A short span still gets the whole minimum second.
    let c = fresh(1, 0);
    assert_eq!(c.next_inc_speed, 1_000_000);
    let c = fresh(0, 0);
    assert_eq!(c.next_inc_speed, 1_000_000);
}

#[test]
fn zero_days_stays_idle() {
    let mut c = fresh(0, 0);
    assert_eq!(c.current_days, 0);
    assert_eq!(c.days, 0);
    for _ in 0..100 {
        c.update_at(16_667, 0);
        assert_eq!(c.current_days, 0);
        assert_eq!(c.days, 0);
    }
}

#[test]
fn animation_reaches_target_monotonically() {
    let mut c = fresh(5, 0);
    let mut last = 0;
    let mut ticks = 0;
    while c.current_days < c.days {
        c.update_at(16_667, 0);
        assert!(c.current_days >= last, "displayed days fell");
        assert!(c.current_days <= 5, "displayed days passed the target");
        last = c.current_days;
        ticks += 1;
        assert!(ticks < 10_000, "animation never finished");
    }
    assert_eq!(c.current_days, 5);
    // Five days inside one second of budget: roughly sixty 60 fps ticks.
    assert!(ticks <= 70, "animation took far too long: {ticks} ticks");
    assert!(ticks >= 40, "animation finished far too fast: {ticks} ticks");
}

#[test]
fn animation_advances_day_by_day() {
    // One year per day of span: each tick may advance at most one day here,
    // since a 60 fps tick is well under the per-day budget.
    let mut c = fresh(3, 0);
    let mut last = 0;
    for _ in 0..1000 {
        // Once idle, reconciling against this reading finds the same three
        // days and changes nothing.
        c.update_at(16_667, 3 * 86_400);
        assert!(c.current_days >= last && c.current_days - last <= 1, "a day was skipped");
        last = c.current_days;
    }
    assert_eq!(c.current_days, 3);
}

#[test]
fn animation_duration_scales_with_span() {
    // 400 days span two started years, so the run lasts about two seconds:
    // around 120 ticks at 60 fps.
    let mut c = fresh(400, 0);
    let mut ticks = 0;
    while c.current_days < c.days {
        c.update_at(16_667, 0);
        ticks += 1;
        assert!(ticks < 10_000, "animation never finished");
    }
    assert!((100..=140).contains(&ticks), "unexpected pace: {ticks} ticks");
}

#[test]
fn rollover_snaps_without_reanimation() {
    let mut c = fresh(3, 0);
    while c.current_days < c.days {
        c.update_at(16_667, 0);
    }
    assert_eq!(c.current_days, 3);
    // The calendar moves on four days; the next idle update snaps both
    // counts at once.
    c.update_at(16_667, 7 * 86_400 + 123);
    assert_eq!(c.days, 7);
    assert_eq!(c.current_days, 7);
    // And it stays idle: no re-animation afterwards.
    c.update_at(16_667, 7 * 86_400 + 123);
    assert_eq!(c.days, 7);
    assert_eq!(c.current_days, 7);
}

#[test]
fn idle_never_restarts_on_its_own() {
    let mut c = fresh(2, 0);
    while c.current_days < c.days {
        c.update_at(16_667, 0);
    }
    for _ in 0..100 {
        c.update_at(16_667, 2 * 86_400 + 5);
        assert_eq!(c.current_days, c.days, "controller started animating by itself");
    }
}

#[test]
fn toggle_resets_and_flips_twice() {
    let mut c = fresh(10, 0);
    for _ in 0..20 {
        c.update_at(16_667, 0);
    }
    assert!(c.current_days > 0);
    let acc_before = c.next_inc;
    c.on_key_pressed(vec![Key::Toggle]);
    assert_eq!(c.current_days, 0);
    assert_eq!(c.display_mode, DisplayMode::Diff);
    assert_eq!(c.days, 10);
    // The pacing accumulator is left as it stood.
    assert_eq!(c.next_inc, acc_before);
    assert!(!c.should_exit());
    c.on_key_pressed(vec![Key::Toggle]);
    assert_eq!(c.current_days, 0);
    assert_eq!(c.display_mode, DisplayMode::Split);
}

#[test]
fn quit_key_sets_exit() {
    let mut c = fresh(10, 0);
    assert!(!c.should_exit());
    c.on_key_pressed(vec![Key::Quit]);
    assert!(c.should_exit());
    assert_eq!(c.display_mode, DisplayMode::Split);
    assert_eq!(c.days, 10);
}

#[test]
fn quit_and_toggle_act_independently() {
    let mut c = fresh(10, 0);
    c.on_key_pressed(vec![Key::Quit, Key::Toggle]);
    // Both keys take effect in one delivery.
    assert!(c.should_exit());
    assert_eq!(c.display_mode, DisplayMode::Diff);
    assert_eq!(c.current_days, 0);
    assert_eq!(c.days, 10);
}

#[test]
fn empty_key_delivery_changes_nothing() {
    let mut c = fresh(10, 0);
    c.on_key_pressed(vec![]);
    assert!(!c.should_exit());
    assert_eq!(c.display_mode, DisplayMode::Split);
    assert_eq!(c.current_days, 0);
}

#[test]
fn update_against_real_clock() {
    // Resolve the built-in date against the real clock, animate to the
    // target, then let an idle update reconcile against the clock again.
    let info = countup::dates::resolve_start(None).unwrap();
    let mut c = Countup::new(info.days, info.label, info.secs);
    while c.current_days < c.days {
        c.update_at(1_000_000_000, 0);
    }
    c.update(16_667);
    // At most one midnight can have passed between the two clock readings.
    assert!(c.days == info.days || c.days == info.days + 1);
    assert_eq!(c.current_days, c.days);
}
