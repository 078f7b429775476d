use vault_program::interest::{
    accrued_interest, BASIS_POINTS, BASIS_POINT_SECONDS_PER_YEAR, SECONDS_PER_YEAR,
};

const YEAR: i64 = 31_536_000;

#[test]
fn constants_agree() {
    assert_eq!(SECONDS_PER_YEAR, 365 * 24 * 60 * 60);
    assert_eq!(BASIS_POINTS, 10_000);
    assert_eq!(BASIS_POINT_SECONDS_PER_YEAR, BASIS_POINTS * SECONDS_PER_YEAR);
}

#[test]
fn five_percent_for_one_year() {
    assert_eq!(accrued_interest(1_000_000, 500, 0, YEAR), 50_000);
}

#[test]
fn five_percent_for_one_year_from_a_late_start() {
    assert_eq!(accrued_interest(1_000_000, 500, 1_700_000_000, 1_700_000_000 + YEAR), 50_000);
}

#[test]
fn no_time_no_interest() {
    assert_eq!(accrued_interest(1_000_000, 500, 0, 0), 0);
    assert_eq!(accrued_interest(1_000_000, 500, 1_700_000_000, 1_700_000_000), 0);
}

#[test]
fn clock_before_deposit_pays_nothing() {
    assert_eq!(accrued_interest(1_000_000, 500, 100, 99), 0);
    assert_eq!(accrued_interest(u64::MAX, u64::MAX, i64::MAX, i64::MIN), 0);
}

#[test]
fn half_a_year_pays_half() {
    assert_eq!(accrued_interest(1_000_000, 500, 0, YEAR / 2), 25_000);
}

#[test]
fn two_years_and_a_second() {
    assert_eq!(accrued_interest(1_000_000, 500, 100, 100 + 2 * YEAR + 1), 100_000);
}

#[test]
fn thirty_days_at_seven_and_a_half_percent() {
    let start = 1_700_000_000;
    assert_eq!(accrued_interest(123_456_789, 750, start, start + 86_400 * 30), 761_035);
}

#[test]
fn one_second_of_interest() {
    assert_eq!(accrued_interest(5_000_000_000, 425, 1_000, 1_001), 6);
}

#[test]
fn fractions_of_a_lamport_are_dropped() {
    assert_eq!(accrued_interest(10_000, 1, 0, YEAR), 1);
    assert_eq!(accrued_interest(9_999, 1, 0, YEAR), 0);
    assert_eq!(accrued_interest(1, 1, 0, YEAR), 0);
}

#[test]
fn nothing_on_deposit_earns_nothing() {
    assert_eq!(accrued_interest(0, 500, 0, YEAR), 0);
    assert_eq!(accrued_interest(0, u64::MAX, i64::MIN, i64::MAX), 0);
}

#[test]
fn zero_rate_earns_nothing() {
    assert_eq!(accrued_interest(1_000_000, 0, 0, YEAR), 0);
}

#[test]
fn whole_range_of_the_clock() {
    assert_eq!(accrued_interest(1, 1, i64::MIN, i64::MAX), 58_494_241);
    assert_eq!(accrued_interest(u64::MAX, 1, 0, 1), 58_494_241);
}

#[test]
fn full_rate_for_one_year_doubles_exactly() {
    assert_eq!(accrued_interest(u64::MAX, 10_000, 0, YEAR), u64::MAX);
    assert_eq!(accrued_interest(u64::MAX - 1, 10_000, 0, YEAR), u64::MAX - 1);
}

#[test]
fn interest_beyond_the_range_is_capped() {
    assert_eq!(accrued_interest(u64::MAX, u64::MAX, i64::MIN, i64::MAX), u64::MAX);
    assert_eq!(accrued_interest(1 << 63, 20_000, 0, YEAR), u64::MAX);
    assert_eq!(accrued_interest((1 << 63) - 1, 20_000, 0, YEAR), u64::MAX - 1);
}

#[test]
fn interest_grows_with_time() {
    let mut last = 0;
    let mut now = 0;
    while now <= 3 * YEAR {
        let interest = accrued_interest(1_000_000, 500, 0, now);
        assert!(interest >= last);
        last = interest;
        now += YEAR / 7;
    }
    assert_eq!(last, accrued_interest(1_000_000, 500, 0, 21 * (YEAR / 7)));
}
