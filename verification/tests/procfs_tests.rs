use blob_bench::error::{BenchError, ParseU64Error};
use blob_bench::procfs::{chars_of, max_thread_delta, peak_rss_bytes, thread_delta};

const STATUS: &str = "Name:\tbench\nVmPeak:\t  10000 kB\nVmHWM:\t    2048 kB\nVmRSS:\t    1024 kB\n";

#[test]
fn reads_peak_rss_in_bytes() {
    assert_eq!(peak_rss_bytes(STATUS), Ok(2048 * 1024));
}

#[test]
fn first_vmhwm_line_wins_and_crlf_is_stripped() {
    assert_eq!(peak_rss_bytes("VmHWM: 1 kB\r\nVmHWM: 2 kB\n"), Ok(1024));
    assert_eq!(peak_rss_bytes("Other: 5\nVmHWM:7"), Ok(7 * 1024));
}

#[test]
fn label_must_start_the_line() {
    assert_eq!(peak_rss_bytes(" VmHWM: 3 kB\n"), Err(BenchError::RssFieldMissing));
    assert_eq!(peak_rss_bytes("vmhwm: 3 kB\n"), Err(BenchError::RssFieldMissing));
}

#[test]
fn missing_field_or_value() {
    assert_eq!(peak_rss_bytes(""), Err(BenchError::RssFieldMissing));
    assert_eq!(peak_rss_bytes("VmRSS: 4 kB\n"), Err(BenchError::RssFieldMissing));
    assert_eq!(peak_rss_bytes("VmHWM:   \t \n"), Err(BenchError::RssFieldMissing));
}

#[test]
fn value_must_be_an_unsigned_integer() {
    assert_eq!(peak_rss_bytes("VmHWM: +5 kB\n"), Ok(5 * 1024));
    let invalid = Err(BenchError::RssValueInvalid { kind: ParseU64Error::InvalidDigit });
    let too_large = Err(BenchError::RssValueInvalid { kind: ParseU64Error::PosOverflow });
    assert_eq!(peak_rss_bytes("VmHWM: + kB\n"), invalid);
    assert_eq!(peak_rss_bytes("VmHWM: -5 kB\n"), invalid);
    assert_eq!(peak_rss_bytes("VmHWM: 12kB\n"), invalid);
    assert_eq!(peak_rss_bytes("VmHWM: 18446744073709551616 kB\n"), too_large);
    assert_eq!(peak_rss_bytes("VmHWM: 99999999999999999999x kB\n"), too_large);
    assert_eq!(peak_rss_bytes("VmHWM: 1x99999999999999999999 kB\n"), invalid);
}

#[test]
fn unicode_whitespace_separates_words() {
    assert_eq!(peak_rss_bytes("VmHWM:\u{3000}9\u{a0}kB"), Ok(9 * 1024));
}

#[test]
fn value_in_bytes_must_fit() {
    let limit = u64::MAX / 1024;
    assert_eq!(peak_rss_bytes(&format!("VmHWM: {limit} kB")), Ok(limit * 1024));
    assert_eq!(
        peak_rss_bytes(&format!("VmHWM: {} kB", limit + 1)),
        Err(BenchError::RssValueOverflow)
    );
}

#[test]
fn parsing_agrees_with_std_on_samples() {
    for text in [
        "VmHWM: 42 kB",
        "VmHWM:\t0",
        "VmHWM: 007 kB",
        "VmHWM: 1a kB",
        "VmHWM: ++1",
        "VmHWM: +",
        "VmHWM: 18446744073709551615",
        "VmHWM: 18446744073709551616",
        "VmHWM: 184467440737095516150",
        "VmHWM: 99999999999999999999x",
        "VmHWM: 9x9999999999999999999999",
    ] {
        let expected = text
            .lines()
            .find_map(|line| line.strip_prefix("VmHWM:"))
            .and_then(|value| value.split_whitespace().next())
            .map(|word| word.parse::<u64>());
        match (expected, peak_rss_bytes(text)) {
            (Some(Ok(kib)), Ok(bytes)) => assert_eq!(kib.wrapping_mul(1024), bytes),
            (Some(Ok(kib)), Err(BenchError::RssValueOverflow)) => assert!(kib.checked_mul(1024).is_none()),
            (Some(Err(error)), Err(invalid @ BenchError::RssValueInvalid { .. })) => {
                assert_eq!(invalid.message(), error.to_string())
            }
            (None, Err(BenchError::RssFieldMissing)) => {}
            (expected, actual) => panic!("{text:?}: {expected:?} vs {actual:?}"),
        }
    }
}

#[test]
fn chars_are_copied_in_order() {
    assert_eq!(chars_of("aé\u{3000}z"), vec!['a', 'é', '\u{3000}', 'z']);
}

#[test]
fn thread_deltas_saturate_and_take_the_maximum() {
    assert_eq!(thread_delta(12, 4), 8);
    assert_eq!(thread_delta(3, 4), 0);
    assert_eq!(max_thread_delta(&[]), 0);
    assert_eq!(max_thread_delta(&[0, 0]), 0);
    assert_eq!(max_thread_delta(&[2, 9, 4]), 9);
}
