use blob_bench::workload::{
    average_sample_nanos, corrupt_envelope, nanos_u64, payload, payload_checksum,
};

#[test]
fn payload_bytes_cycle_through_251_values() {
    let body = payload(600);
    assert_eq!(body.len(), 600);
    assert_eq!(body[0], 0);
    assert_eq!(body[250], 250);
    assert_eq!(body[251], 0);
    assert_eq!(body[502], 0);
    assert_eq!(body[599], (599 % 251) as u8);
}

#[test]
fn empty_payload() {
    assert!(payload(0).is_empty());
}

#[test]
fn shorter_payload_is_prefix_of_longer() {
    let long = payload(1000);
    let short = payload(300);
    assert_eq!(&long[..300], short.as_slice());
}

#[test]
fn nanos_saturate_at_u64_max() {
    assert_eq!(nanos_u64(0), 0);
    assert_eq!(nanos_u64(123_456), 123_456);
    assert_eq!(nanos_u64(u64::MAX as u128), u64::MAX);
    assert_eq!(nanos_u64(u64::MAX as u128 + 1), u64::MAX);
    assert_eq!(nanos_u64(u128::MAX), u64::MAX);
}

#[test]
fn average_divides_by_operations() {
    assert_eq!(average_sample_nanos(1000, 10), 100);
    assert_eq!(average_sample_nanos(1009, 10), 100);
    assert_eq!(average_sample_nanos(u128::MAX, 1), u64::MAX);
}

#[test]
fn corruption_flips_byte_eighteen() {
    let encoded: Vec<u8> = (0..30).collect();
    let corrupt = corrupt_envelope(&encoded);
    assert_eq!(corrupt.len(), 30);
    assert_eq!(corrupt[18], 18 ^ 1);
    for index in 0..30 {
        if index != 18 {
            assert_eq!(corrupt[index], encoded[index]);
        }
    }
}

#[test]
fn corruption_extends_short_envelope() {
    let encoded: Vec<u8> = (0..18).collect();
    let corrupt = corrupt_envelope(&encoded);
    assert_eq!(corrupt.len(), 19);
    assert_eq!(&corrupt[..18], encoded.as_slice());
    assert_eq!(corrupt[18], 1);
    assert_ne!(corrupt, encoded);
}

#[test]
fn checksum_is_crc32c() {
    assert_eq!(payload_checksum(b"123456789"), 0xE306_9283);
    assert_eq!(payload_checksum(b""), 0);
    assert_ne!(payload_checksum(&payload(64)), payload_checksum(&payload(65)));
}
