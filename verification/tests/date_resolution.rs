use madara::resolve_date;
use std::time::{SystemTime, UNIX_EPOCH};

#[test]
fn four_digit_year_parses() {
    assert_eq!(resolve_date("Jan 5, 2024", 42), 1704412800);
}

#[test]
fn two_digit_year_falls_back_and_parses() {
    // "Jan 5, 24" fails the 4-digit-year format and succeeds under the
    // 2-digit fallback, windowed to 2024.
    assert_eq!(resolve_date("Jan 5, 24", 42), 1704412800);
}

#[test]
fn unparseable_date_yields_now() {
    let now = SystemTime::now()
        .duration_since(UNIX_EPOCH)
        .unwrap()
        .as_secs() as i64;
    let resolved = resolve_date("not a date", now);
    assert!((resolved - now).abs() <= 2);
}

#[test]
fn unparseable_date_passes_the_given_moment_through() {
    assert_eq!(resolve_date("not a date", 42), 42);
    assert_eq!(resolve_date("", 7), 7);
}

#[test]
fn two_digit_year_windows_into_last_century() {
    assert_eq!(resolve_date("Jan 5, 99", 42), 915494400);
}

#[test]
fn leap_day_parses_in_leap_years_only() {
    assert_eq!(resolve_date("Feb 29, 2024", 42), 1709164800);
    // 2023 has no Feb 29; neither format accepts it, so "now" is used.
    assert_eq!(resolve_date("Feb 29, 2023", 42), 42);
}

#[test]
fn two_digit_day_parses() {
    assert_eq!(resolve_date("Oct 21, 2016", 42), 1477008000);
    assert_eq!(resolve_date("Jul 1, 2022", 42), 1656633600);
}

#[test]
fn wrong_month_abbreviation_yields_now() {
    assert_eq!(resolve_date("January 5, 2024", 42), 42);
    assert_eq!(resolve_date("jan 5, 2024", 42), 42);
}

#[test]
fn far_past_four_digit_year_falls_through_to_now() {
    // "Jan 5, 0024" parses under the 4-digit format but lands far before the
    // epoch, so the chain retries the 2-digit format (which needs exactly two
    // year digits and fails) and ends at the supplied moment.
    assert_eq!(resolve_date("Jan 5, 0024", 42), 42);
}

#[test]
fn pre_epoch_two_digit_year_is_kept() {
    // A 2-digit year windows to 1950 and its (negative) timestamp stands.
    assert_eq!(resolve_date("Jan 5, 50", 42), -630806400);
}

#[test]
fn day_zero_and_day_32_are_rejected() {
    assert_eq!(resolve_date("Jan 0, 2024", 42), 42);
    assert_eq!(resolve_date("Jan 32, 2024", 42), 42);
}
