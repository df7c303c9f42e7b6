use hypoloop::clock::reading_of;
use hypoloop::time::{
    advance_irl_time, advance_sim_time, advance_sim_time_fixed, nanos_between,
};
use hypoloop::{delta_time, timestep};

#[test]
fn nanos_between_is_the_difference() {
    assert_eq!(nanos_between(5, 12), 7);
    assert_eq!(nanos_between(0, u64::MAX), u64::MAX);
    assert_eq!(nanos_between(9, 9), 0);
}

#[test]
fn nanos_between_is_zero_when_the_clock_went_back() {
    assert_eq!(nanos_between(12, 5), 0);
    assert_eq!(nanos_between(u64::MAX, 0), 0);
}

#[test]
fn delta_time_counts_whole_milliseconds() {
    assert_eq!(delta_time(0, 0), 0);
    assert_eq!(delta_time(0, 999_999), 0);
    assert_eq!(delta_time(0, 1_000_000), 1);
    assert_eq!(delta_time(1_000_000, 41_999_999), 40);
    assert_eq!(delta_time(7, 40_063_807), 40);
    assert_eq!(delta_time(50_000_000, 10_000_000), 0);
}

#[test]
fn delta_time_holds_at_the_largest_value() {
    let limit = u32::MAX as u64 * 1_000_000;
    assert_eq!(delta_time(0, limit - 1), u32::MAX - 1);
    assert_eq!(delta_time(0, limit), u32::MAX);
    assert_eq!(delta_time(0, limit + 1_000_000), u32::MAX);
    assert_eq!(delta_time(0, u64::MAX), u32::MAX);
}

#[test]
fn timestep_is_delta_time_times_timescale() {
    // 40 ms at the speed of real time are 0.04 s
    assert_eq!(timestep(40, 1000), 40_000);
    // 25 ms at twice the speed are 0.05 s
    assert_eq!(timestep(25, 2000), 50_000);
    assert_eq!(timestep(40, 500), 20_000);
    assert_eq!(timestep(40, 0), 0);
    assert_eq!(timestep(0, 1000), 0);
    assert_eq!(timestep(40, -1000), -40_000);
    assert_eq!(timestep(3, 1), 3);
}

#[test]
fn timestep_of_the_largest_values_fits() {
    assert_eq!(timestep(u32::MAX, i32::MAX), 4_294_967_295 * 2_147_483_647);
    assert_eq!(timestep(u32::MAX, i32::MIN), 4_294_967_295 * -2_147_483_648);
}

#[test]
fn advance_sim_time_scales_the_span() {
    assert_eq!(advance_sim_time(0, 25_000_000, 2000), 50_000_000);
    assert_eq!(advance_sim_time(10, 40_000_000, 1000), 40_000_010);
    assert_eq!(advance_sim_time(10, 40_000_000, 0), 10);
    assert_eq!(advance_sim_time(0, 40_000_000, -1000), -40_000_000);
    assert_eq!(advance_sim_time(100, 30, -500), 85);
}

#[test]
fn advance_sim_time_rounds_toward_zero() {
    assert_eq!(advance_sim_time(0, 1999, 1), 1);
    assert_eq!(advance_sim_time(0, 1999, -1), -1);
    assert_eq!(advance_sim_time(0, 999, 1), 0);
    assert_eq!(advance_sim_time(0, 999, -1), 0);
    assert_eq!(advance_sim_time(0, 3, 1500), 4);
    assert_eq!(advance_sim_time(0, 3, -1500), -4);
}

#[test]
fn advance_sim_time_holds_at_the_limits() {
    assert_eq!(advance_sim_time(i64::MAX - 5, 10, 1000), i64::MAX);
    assert_eq!(advance_sim_time(i64::MIN + 5, 10, -1000), i64::MIN);
    assert_eq!(advance_sim_time(0, u64::MAX, i32::MAX), i64::MAX);
    assert_eq!(advance_sim_time(0, u64::MAX, i32::MIN), i64::MIN);
    // the sum is held, not the step: a large step from far below lands in range
    assert_eq!(advance_sim_time(i64::MIN, u64::MAX, 1000), i64::MAX);
    assert_eq!(advance_sim_time(-10, u64::MAX / 2, 1000), i64::MAX - 10);
}

#[test]
fn advance_sim_time_fixed_adds_milliseconds() {
    assert_eq!(advance_sim_time_fixed(0, 40), 40_000_000);
    assert_eq!(advance_sim_time_fixed(-5, 1), 999_995);
    assert_eq!(advance_sim_time_fixed(7, 0), 7);
    assert_eq!(advance_sim_time_fixed(i64::MAX - 1, 1), i64::MAX);
    assert_eq!(advance_sim_time_fixed(i64::MIN, u32::MAX), i64::MIN + 4_294_967_295_000_000);
}

#[test]
fn advance_irl_time_adds_and_holds() {
    assert_eq!(advance_irl_time(0, 25_000_000), 25_000_000);
    assert_eq!(advance_irl_time(7, 0), 7);
    assert_eq!(advance_irl_time(u64::MAX - 3, 3), u64::MAX);
    assert_eq!(advance_irl_time(u64::MAX - 3, 4), u64::MAX);
    assert_eq!(advance_irl_time(u64::MAX, u64::MAX), u64::MAX);
}

#[test]
fn reading_of_holds_at_the_largest_value() {
    assert_eq!(reading_of(0), 0);
    assert_eq!(reading_of(40_063_800), 40_063_800);
    assert_eq!(reading_of(u64::MAX as u128 - 1), u64::MAX - 1);
    assert_eq!(reading_of(u64::MAX as u128), u64::MAX);
    assert_eq!(reading_of(u64::MAX as u128 + 1), u64::MAX);
    assert_eq!(reading_of(u128::MAX), u64::MAX);
}
