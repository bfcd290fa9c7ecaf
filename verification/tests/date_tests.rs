use daymatter_astrobox_v2_plugin::date::{
    civil_from_days, clock_in_range, get_current_date, is_leap_year,
    validate_date_format, DateValidationError, CLOCK_DAY_LIMIT,
};

#[test]
fn leap_years_follow_the_gregorian_rule() {
    assert!(is_leap_year(2000));
    assert!(is_leap_year(2024));
    assert!(!is_leap_year(1900));
    assert!(!is_leap_year(2023));
    assert!(is_leap_year(1600));
    assert!(!is_leap_year(2100));
}

#[test]
fn empty_date_is_refused_as_empty() {
    assert_eq!(validate_date_format(""), Err(DateValidationError::Empty));
}

#[test]
fn wrong_shapes_are_refused_as_format_errors() {
    assert_eq!(validate_date_format("2024-1-01"), Err(DateValidationError::InvalidFormat));
    assert_eq!(validate_date_format("2024/01/01"), Err(DateValidationError::InvalidFormat));
    assert_eq!(validate_date_format("2024-01-011"), Err(DateValidationError::InvalidFormat));
    assert_eq!(validate_date_format("20a4-01-01"), Err(DateValidationError::InvalidFormat));
    assert_eq!(validate_date_format("2024-0x-01"), Err(DateValidationError::InvalidFormat));
    assert_eq!(validate_date_format("2024-01- 1"), Err(DateValidationError::InvalidFormat));
    // Full-width digits take three bytes each.
    assert_eq!(validate_date_format("２０２４-01-01"), Err(DateValidationError::InvalidFormat));
    // Ten bytes with a two-byte character inside a field.
    assert_eq!(validate_date_format("é24-01-01"), Err(DateValidationError::InvalidFormat));
    // Dashes in place, but the year field holds a character outside ASCII.
    assert_eq!(validate_date_format("é123-56-8"), Err(DateValidationError::InvalidFormat));
}

#[test]
fn year_month_and_day_ranges_are_checked_in_order() {
    assert_eq!(validate_date_format("0000-01-01"), Err(DateValidationError::InvalidYear));
    assert_eq!(validate_date_format("0000-13-40"), Err(DateValidationError::InvalidYear));
    assert_eq!(validate_date_format("2024-13-01"), Err(DateValidationError::InvalidMonth));
    assert_eq!(validate_date_format("2024-00-01"), Err(DateValidationError::InvalidMonth));
    assert_eq!(validate_date_format("2023-02-29"), Err(DateValidationError::InvalidDay));
    assert_eq!(validate_date_format("2024-04-31"), Err(DateValidationError::InvalidDay));
    assert_eq!(validate_date_format("2024-04-00"), Err(DateValidationError::InvalidDay));
}

#[test]
fn real_dates_pass() {
    assert_eq!(validate_date_format("2024-02-29"), Ok(()));
    assert_eq!(validate_date_format("2000-02-29"), Ok(()));
    assert_eq!(validate_date_format("0001-01-01"), Ok(()));
    assert_eq!(validate_date_format("9999-12-31"), Ok(()));
}

#[test]
fn fields_hold_digits_only() {
    assert_eq!(validate_date_format("+999-01-01"), Err(DateValidationError::InvalidFormat));
    assert_eq!(validate_date_format("2024-+1-05"), Err(DateValidationError::InvalidFormat));
    assert_eq!(validate_date_format("2024-01-+5"), Err(DateValidationError::InvalidFormat));
    assert_eq!(validate_date_format("-999-01-01"), Err(DateValidationError::InvalidFormat));
    assert_eq!(validate_date_format("0999-01-05"), Ok(()));
}

#[test]
fn every_ten_byte_text_outside_ascii_is_a_format_error() {
    // Ten bytes but only four characters.
    assert_eq!(validate_date_format("日日日x"), Err(DateValidationError::InvalidFormat));
    assert_eq!(validate_date_format("a中中中"), Err(DateValidationError::InvalidFormat));
    // Dashes in place, but a field would split a character.
    assert_eq!(validate_date_format("123é-56-8"), Err(DateValidationError::InvalidFormat));
    assert_eq!(validate_date_format("2024-中1-"), Err(DateValidationError::InvalidFormat));
}

#[test]
fn each_refusal_has_its_message() {
    assert_eq!(DateValidationError::Empty.message(), "时间不能为空");
    assert_eq!(DateValidationError::InvalidFormat.message(), "时间格式必须为 YYYY-MM-DD");
    assert_eq!(DateValidationError::InvalidYear.message(), "年份必须在 1-9999 之间");
    assert_eq!(DateValidationError::InvalidMonth.message(), "月份必须在 1-12 之间");
    assert_eq!(DateValidationError::InvalidDay.message(), "日期无效");
}

#[test]
fn current_date_counts_days_from_the_epoch() {
    assert_eq!(get_current_date(0), "1970-01-01");
    assert_eq!(get_current_date(86399), "1970-01-01");
    assert_eq!(get_current_date(86400), "1970-01-02");
    assert_eq!(get_current_date(365 * 86400), "1971-01-01");
    assert_eq!(get_current_date(951_782_400), "2000-02-29");
    assert_eq!(get_current_date(951_868_800), "2000-03-01");
    assert_eq!(get_current_date(1_709_164_800), "2024-02-29");
    assert_eq!(get_current_date(1_735_689_599), "2024-12-31");
    assert_eq!(get_current_date(253_402_300_799), "9999-12-31");
    assert_eq!(get_current_date(253_402_300_800), "10000-01-01");
}

#[test]
fn civil_dates_from_day_counts() {
    assert_eq!(civil_from_days(0), (1970, 1, 1));
    assert_eq!(civil_from_days(31), (1970, 2, 1));
    assert_eq!(civil_from_days(59), (1970, 3, 1));
    assert_eq!(civil_from_days(789), (1972, 2, 29));
    assert_eq!(civil_from_days(19_782), (2024, 2, 29));
}

#[test]
fn todays_date_passes_the_form_check() {
    for secs in [0u64, 951_782_400, 1_709_164_800, 1_735_689_599, 253_402_300_799] {
        let today = get_current_date(secs);
        assert_eq!(validate_date_format(&today), Ok(()));
    }
}

#[test]
fn clock_range_ends_where_the_year_counter_would_overflow() {
    assert!(clock_in_range(0));
    assert!(clock_in_range(CLOCK_DAY_LIMIT * 86400 - 1));
    assert!(!clock_in_range(CLOCK_DAY_LIMIT * 86400));
    assert!(!clock_in_range(u64::MAX));
    assert_eq!(civil_from_days(CLOCK_DAY_LIMIT - 1).0, u32::MAX);
}

#[test]
fn later_clock_readings_never_give_an_earlier_date() {
    let readings = [0u64, 86_399, 86_400, 951_782_399, 951_782_400, 1_709_164_800, 1_735_689_599, 1_735_689_600, 253_402_300_799];
    for pair in readings.windows(2) {
        assert!(get_current_date(pair[0]) <= get_current_date(pair[1]));
    }
    assert_eq!(get_current_date(86_400), get_current_date(172_799));
}
