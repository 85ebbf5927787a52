use countup::dates::{
    calc_days_since, decimal_string, format_label, resolve_start, resolve_start_at,
    signed_decimal_string, two_digit, DateError, DEFAULT_START_SECS,
};

#[test]
fn days_since_counts_whole_days() {
    assert_eq!(calc_days_since(0, 0), 0);
    assert_eq!(calc_days_since(0, 86_399), 0);
    assert_eq!(calc_days_since(0, 86_400), 1);
    assert_eq!(calc_days_since(0, 10 * 86_400 + 5), 10);
    // A clock before the start counts as zero, not negative.
    assert_eq!(calc_days_since(100, 50), 0);
    assert_eq!(calc_days_since(-86_400, 0), 1);
}

#[test]
fn decimal_rendering_is_exact() {
    assert_eq!(decimal_string(0), "0");
    assert_eq!(decimal_string(7), "7");
    assert_eq!(decimal_string(1_234_567_890), "1234567890");
    assert_eq!(signed_decimal_string(-45), "-45");
    assert_eq!(signed_decimal_string(2022), "2022");
    assert_eq!(two_digit(5), "05");
    assert_eq!(two_digit(11), "11");
}

#[test]
fn label_is_zero_padded() {
    assert_eq!(format_label(5, 1, 2023), "05/01/2023");
    assert_eq!(format_label(25, 11, 2022), "25/11/2022");
}

#[test]
fn default_date_resolves() {
    let r = resolve_start_at(None, DEFAULT_START_SECS + 10 * 86_400).unwrap();
    assert_eq!(r.secs, DEFAULT_START_SECS);
    assert_eq!(r.days, 10);
    assert_eq!(r.label, "25/11/2022");
}

#[test]
fn supplied_date_parses_through_chrono() {
    // Midnight UTC of 2022-11-25 — the parse must produce the real
    // timestamp, not echo its input.
    let arg = String::from("2022-11-25");
    let r = resolve_start_at(Some(&arg), DEFAULT_START_SECS + 86_400).unwrap();
    assert_eq!(r.secs, 1_669_334_400);
    assert_eq!(r.days, 1);
    assert_eq!(r.label, "25/11/2022");
}

#[test]
fn another_date_parses() {
    // 2000-01-01 is 946684800 seconds into the epoch.
    let arg = String::from("2000-01-01");
    let r = resolve_start_at(Some(&arg), 946_684_800 + 3 * 86_400 + 7).unwrap();
    assert_eq!(r.secs, 946_684_800);
    assert_eq!(r.days, 3);
    assert_eq!(r.label, "01/01/2000");
}

#[test]
fn unparsable_date_is_invalid_input() {
    let arg = String::from("not-a-date");
    assert!(matches!(resolve_start_at(Some(&arg), 0), Err(DateError::InvalidInput)));
    let arg = String::from("2022-13-40");
    assert!(matches!(resolve_start_at(Some(&arg), 0), Err(DateError::InvalidInput)));
    let arg = String::from("");
    assert!(matches!(resolve_start_at(Some(&arg), 0), Err(DateError::InvalidInput)));
}

#[test]
fn future_date_is_invalid_input() {
    let arg = String::from("2022-11-25");
    assert!(matches!(
        resolve_start_at(Some(&arg), 1_669_334_400 - 100),
        Err(DateError::InvalidInput)
    ));
    // The very instant of the start date is not in the future.
    assert!(resolve_start_at(Some(&arg), 1_669_334_400).is_ok());
}

#[test]
fn resolve_against_real_clock() {
    // The built-in date lies in the past of any sane clock.
    let r = resolve_start(None).unwrap();
    assert_eq!(r.secs, DEFAULT_START_SECS);
    assert_eq!(r.label, "25/11/2022");
    // A date far in the future is refused against the real clock too.
    let arg = String::from("9999-01-01");
    assert!(matches!(resolve_start(Some(&arg)), Err(DateError::InvalidInput)));
}
