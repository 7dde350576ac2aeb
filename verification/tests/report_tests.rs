use v6_engine::config::{parse_iterations_override, Iterations};
use v6_engine::report::{
    decimal_string, finite_summary, infinite_summary, push_decimal, push_hundredths,
    push_seconds, throughput_hundredths,
};

fn seconds(ms: u64) -> String {
    let mut out = String::new();
    push_seconds(&mut out, ms);
    out
}

fn hundredths(h: u128) -> String {
    let mut out = String::new();
    push_hundredths(&mut out, h);
    out
}

#[test]
fn decimal_numerals() {
    assert_eq!(decimal_string(0), "0");
    assert_eq!(decimal_string(7), "7");
    assert_eq!(decimal_string(10), "10");
    assert_eq!(decimal_string(1_000), "1000");
    assert_eq!(decimal_string(9_876_543_210), "9876543210");
    assert_eq!(decimal_string(u64::MAX as u128), "18446744073709551615");
    assert_eq!(decimal_string(u128::MAX), "340282366920938463463374607431768211455");
}

#[test]
fn a_numeral_is_appended_to_what_is_there() {
    let mut out = "n = ".to_string();
    push_decimal(&mut out, 42);
    assert_eq!(out, "n = 42");
    push_decimal(&mut out, 0);
    assert_eq!(out, "n = 420");
}

#[test]
fn a_numeral_read_back_is_its_number() {
    for n in [0u64, 1, 9, 10, 99, 100, 1000, 123_456_789, u64::MAX] {
        assert_eq!(
            parse_iterations_override(decimal_string(n as u128).as_str()),
            Iterations::Finite(n)
        );
    }
}

#[test]
fn seconds_are_written_with_the_decimals_they_need() {
    assert_eq!(seconds(0), "0");
    assert_eq!(seconds(1_000), "1");
    assert_eq!(seconds(30_000), "30");
    assert_eq!(seconds(1_500), "1.5");
    assert_eq!(seconds(250), "0.25");
    assert_eq!(seconds(1), "0.001");
    assert_eq!(seconds(10), "0.01");
    assert_eq!(seconds(1_050), "1.05");
    assert_eq!(seconds(12_345), "12.345");
    assert_eq!(seconds(100), "0.1");
}

#[test]
fn hundredths_are_written_with_two_decimals() {
    assert_eq!(hundredths(0), "0.00");
    assert_eq!(hundredths(5), "0.05");
    assert_eq!(hundredths(50), "0.50");
    assert_eq!(hundredths(133), "1.33");
    assert_eq!(hundredths(200_000), "2000.00");
}

#[test]
fn throughput_is_tasks_per_second() {
    assert_eq!(throughput_hundredths(2_000, 1_000), Some(200_000));
    assert_eq!(throughput_hundredths(1_500, 1_500), Some(100_000));
    assert_eq!(throughput_hundredths(1, 3_000), Some(33));
    assert_eq!(throughput_hundredths(2, 3_000), Some(67));
    assert_eq!(throughput_hundredths(1, 8_000), Some(13));
    assert_eq!(throughput_hundredths(0, 1_000), Some(0));
    assert_eq!(throughput_hundredths(1, 1), Some(100_000));
    assert_eq!(throughput_hundredths(5, 0), None);
    assert_eq!(throughput_hundredths(0, 0), None);
    assert_eq!(
        throughput_hundredths(usize::MAX, 1),
        Some(usize::MAX as u128 * 100_000)
    );
}

#[test]
fn summary_of_a_finite_run() {
    assert_eq!(finite_summary(4, 2), "All 4 tasks completed across 2 VUs");
    assert_eq!(finite_summary(0, 1), "All 0 tasks completed across 1 VUs");
    assert_eq!(finite_summary(1000, 250), "All 1000 tasks completed across 250 VUs");
}

#[test]
fn summary_of_an_unbounded_run() {
    assert_eq!(
        infinite_summary(1_500, 3, 1_000),
        "Completed 1500 tasks across 3 VUs (infinite iterations with 1s timeout) - Rate: 1500.00 iterations/sec"
    );
    assert_eq!(
        infinite_summary(1_500, 3, 1_500),
        "Completed 1500 tasks across 3 VUs (infinite iterations with 1.5s timeout) - Rate: 1000.00 iterations/sec"
    );
    assert_eq!(
        infinite_summary(1, 1, 3_000),
        "Completed 1 tasks across 1 VUs (infinite iterations with 3s timeout) - Rate: 0.33 iterations/sec"
    );
}

#[test]
fn a_run_of_no_duration_has_no_rate() {
    assert_eq!(
        infinite_summary(0, 2, 0),
        "Completed 0 tasks across 2 VUs (infinite iterations with 0s timeout) - Rate: NaN iterations/sec"
    );
    assert_eq!(
        infinite_summary(4, 2, 0),
        "Completed 4 tasks across 2 VUs (infinite iterations with 0s timeout) - Rate: inf iterations/sec"
    );
}
