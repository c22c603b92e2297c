use vstd::prelude::*;

verus! {

/// The byte at position `i` of every benchmark payload.
pub open spec fn payload_byte(i: int) -> u8 {
    (i % 251) as u8
}

/// The benchmark payload of `size` bytes: byte `i` is `i % 251`.
pub open spec fn payload_bytes(size: nat) -> Seq<u8> {
    Seq::new(size, |i: int| payload_byte(i))
}

/// Builds the deterministic payload of `size` bytes whose byte `i` is `i % 251`.
pub fn payload(size: usize) -> (body: Vec<u8>)
    ensures
        body@ == payload_bytes(size as nat),
{
    let mut body: Vec<u8> = Vec::with_capacity(size);
    let mut index: usize = 0;
    while index < size
        invariant
            index <= size,
            body@ == payload_bytes(index as nat),
        decreases size - index,
    {
        let byte = (index % 251) as u8;
        body.push(byte);
        index = index + 1;
        proof {
            assert(body@ =~= payload_bytes(index as nat));
        }
    }
    body
}

/// A shorter payload is a prefix of a longer one: the bytes do not depend on
/// the size asked for.
pub proof fn law_payload_prefix(n: nat, m: nat)
    requires
        n <= m,
    ensures
        payload_bytes(n) == payload_bytes(m).take(n as int),
{
    assert(payload_bytes(n) =~= payload_bytes(m).take(n as int));
}

/// A nanosecond count clamped to what a `u64` holds.
pub open spec fn clamp_to_u64(nanos: int) -> u64 {
    if nanos <= u64::MAX {
        nanos as u64
    } else {
        u64::MAX
    }
}

/// Converts a nanosecond count to `u64`, saturating at `u64::MAX`.
pub fn nanos_u64(nanos: u128) -> (value: u64)
    ensures
        value == clamp_to_u64(nanos as int),
{
    if nanos <= u64::MAX as u128 {
        nanos as u64
    } else {
        u64::MAX
    }
}

/// Clamping keeps every count that fits and never increases a count: it is the
/// identity up to `u64::MAX` and monotone.
pub proof fn law_nanos_clamp(a: int, b: int)
    requires
        0 <= a <= b,
    ensures
        a <= u64::MAX ==> clamp_to_u64(a) == a,
        clamp_to_u64(a) <= clamp_to_u64(b),
        clamp_to_u64(a) <= a,
{
}

/// The per-operation latency of one sample: the elapsed nanoseconds divided
/// by the number of operations in the sample, clamped to `u64`.
pub fn average_sample_nanos(elapsed_nanos: u128, operations: usize) -> (value: u64)
    requires
        operations > 0,
    ensures
        value == clamp_to_u64(elapsed_nanos as int / operations as int),
{
    nanos_u64(elapsed_nanos / operations as u128)
}

/// The offset of the envelope byte that the error-path workload corrupts.
pub const CORRUPTED_ENVELOPE_OFFSET: usize = 18;

/// The envelope that the error-path workload decodes: the byte at offset 18
/// with its lowest bit flipped, or, for a shorter envelope, the envelope with
/// a byte `1` appended.
pub open spec fn corrupted(encoded: Seq<u8>) -> Seq<u8> {
    if encoded.len() > 18 {
        encoded.update(18, encoded[18] ^ 1u8)
    } else {
        encoded.push(1u8)
    }
}

/// Damages an encoded envelope so that decoding it exercises the error paths.
pub fn corrupt_envelope(encoded: &Vec<u8>) -> (corrupt: Vec<u8>)
    ensures
        corrupt@ == corrupted(encoded@),
{
    let mut corrupt = encoded.clone();
    if corrupt.len() > CORRUPTED_ENVELOPE_OFFSET {
        let byte = corrupt[CORRUPTED_ENVELOPE_OFFSET];
        corrupt.set(CORRUPTED_ENVELOPE_OFFSET, byte ^ 1u8);
    } else {
        corrupt.push(1u8);
    }
    proof {
        assert(corrupt@ =~= corrupted(encoded@));
    }
    corrupt
}

/// A corrupted envelope always differs from the one it was made from, so the
/// error-path workload never decodes an intact envelope.
pub proof fn law_corruption_changes_envelope(encoded: Seq<u8>)
    ensures
        corrupted(encoded) != encoded,
{
    if encoded.len() > 18 {
        let b = encoded[18];
        assert(b ^ 1u8 != b) by (bit_vector);
        assert(corrupted(encoded)[18] != encoded[18]);
    } else {
        assert(corrupted(encoded).len() != encoded.len());
    }
}

/// One bit of the reflected CRC-32C register: shift right, folding in the
/// Castagnoli polynomial (reflected: `0x82F63B78`) when the bit shifted out is set.
pub open spec fn crc32c_bit_step(crc: u32) -> u32 {
    if crc & 1u32 == 1u32 {
        (crc >> 1u32) ^ 0x82F6_3B78u32
    } else {
        crc >> 1u32
    }
}

/// The register after `bits` bit steps.
pub open spec fn crc32c_shift(crc: u32, bits: nat) -> u32
    decreases bits,
{
    if bits == 0 {
        crc
    } else {
        crc32c_shift(crc32c_bit_step(crc), (bits - 1) as nat)
    }
}

/// The register after one more byte, taken least significant bit first.
pub open spec fn crc32c_byte_step(crc: u32, byte: u8) -> u32 {
    crc32c_shift(crc ^ (byte as u32), 8)
}

/// The register after the bytes of `data`, starting from all ones.
pub open spec fn crc32c_register(data: Seq<u8>) -> u32
    decreases data.len(),
{
    if data.len() == 0 {
        0xFFFF_FFFFu32
    } else {
        crc32c_byte_step(crc32c_register(data.drop_last()), data.last())
    }
}

/// The CRC-32C (Castagnoli) checksum of a byte sequence: the final register
/// with every bit inverted.
pub open spec fn crc32c_of(data: Seq<u8>) -> u32 {
    crc32c_register(data) ^ 0xFFFF_FFFFu32
}

/// Calls `crc32c::crc32c`, which computes the CRC-32C (Castagnoli) checksum
/// of the bytes with hardware instructions or tables. The contract claims that
/// the result is the checksum as `crc32c_of` defines it bit by bit.
#[verifier::external_body]
fn crc32c_checksum(data: &[u8]) -> (checksum: u32)
    ensures
        checksum == crc32c_of(data@),
{
    crc32c::crc32c(data)
}

/// The checksum workload: the CRC-32C of the payload.
pub fn payload_checksum(payload: &[u8]) -> (checksum: u32)
    ensures
        checksum == crc32c_of(payload@),
{
    crc32c_checksum(payload)
}

} // verus!
