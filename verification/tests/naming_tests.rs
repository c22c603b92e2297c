use blob_bench::naming::{
    coordination_key, generated_run_id, lifecycle_save_key, lifecycle_store_name, queued_key,
    run_id, sample_key, unix_secs, unix_secs_or_zero,
};

#[test]
fn keys_render_numbers_in_decimal() {
    assert_eq!(sample_key(0), "key-0");
    assert_eq!(sample_key(49), "key-49");
    assert_eq!(queued_key(7), "queued-7");
    assert_eq!(lifecycle_store_name(3, 12), "lifecycle-3-12");
    assert_eq!(lifecycle_save_key(0, 1), "key-0-1");
    assert_eq!(sample_key(usize::MAX), format!("key-{}", usize::MAX));
}

#[test]
fn coordination_keys_follow_the_key_mode() {
    assert_eq!(coordination_key(true, 2, 15), "worker-2-operation-15");
    assert_eq!(coordination_key(false, 2, 15), "shared-key");
    assert_eq!(coordination_key(false, 0, 0), coordination_key(false, 9, 9));
    assert_ne!(coordination_key(true, 1, 23), coordination_key(true, 12, 3));
}

#[test]
fn lifecycle_names_are_distinct_per_pair() {
    assert_ne!(lifecycle_store_name(1, 11), lifecycle_store_name(11, 1));
    assert_ne!(lifecycle_save_key(1, 11), lifecycle_save_key(11, 1));
}

#[test]
fn given_run_id_is_kept() {
    assert_eq!(run_id(Some("my-run"), "persistence-lifecycle"), "my-run");
}

#[test]
fn generated_run_id_has_prefix_seconds_and_nonce() {
    assert_eq!(generated_run_id("persistence-maintenance", 1700000000, 42), "persistence-maintenance-1700000000-42");
    assert_eq!(generated_run_id("p", 0, u32::MAX), format!("p-0-{}", u32::MAX));
    let id = run_id(None, "persistence-backpressure");
    let rest = id.strip_prefix("persistence-backpressure-").expect("prefix");
    let mut parts = rest.split('-');
    let seconds: u64 = parts.next().unwrap().parse().unwrap();
    let _nonce: u32 = parts.next().unwrap().parse().unwrap();
    assert!(parts.next().is_none());
    assert!(seconds > 1_600_000_000);
}

#[test]
fn clock_before_epoch_reads_zero() {
    assert_eq!(unix_secs_or_zero(None), 0);
    assert_eq!(unix_secs_or_zero(Some(17)), 17);
    assert!(unix_secs() > 1_600_000_000);
}
