use blob_bench::command_output::{command_output_text, target_text, trimmed_text, working_tree_dirty};
use blob_bench::stats::{latency_summary, reports_throughput};

#[test]
fn command_output_is_decoded_and_trimmed() {
    assert_eq!(command_output_text(b"  abc123\n"), "abc123");
    assert_eq!(command_output_text(b"\n\t \r\n"), "");
    assert_eq!(command_output_text(b""), "");
    assert_eq!(command_output_text(b" M src/lib.rs\n?? x\n"), "M src/lib.rs\n?? x");
    assert_eq!(command_output_text(b"ok\xff\n"), "ok\u{FFFD}");
    assert_eq!(command_output_text("\u{3000}rustc 1.80\u{a0}".as_bytes()), "rustc 1.80");
}

#[test]
fn throughput_needs_bytes_and_time() {
    let (_, timed) = latency_summary(vec![5, 7]);
    let (_, instant) = latency_summary(vec![0, 0]);
    assert!(reports_throughput(1024, &timed));
    assert!(!reports_throughput(0, &timed));
    assert!(!reports_throughput(1024, &instant));
}

#[test]
fn trimming_matches_str_trim() {
    for text in ["", "  ", " a b ", "\u{2028}x\u{85}", "no-space", "\tline\r\n"] {
        assert_eq!(trimmed_text(text), text.trim());
    }
}

#[test]
fn dirty_when_status_printed_something() {
    assert!(!working_tree_dirty(&None));
    assert!(!working_tree_dirty(&Some(String::new())));
    assert!(working_tree_dirty(&Some("M src/lib.rs".to_owned())));
}

#[test]
fn target_joins_arch_and_os() {
    assert_eq!(target_text("x86_64", "linux"), "x86_64-linux");
}
