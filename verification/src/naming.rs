use vstd::prelude::*;
use crate::decimal::{
    decimal, is_digit, law_decimal_injective, lemma_decimal_shape, lemma_digit_run_split,
    push_decimal,
};

verus! {

/// `prefix` followed by the rendering of `a`.
pub open spec fn numbered(prefix: Seq<char>, a: nat) -> Seq<char> {
    prefix + decimal(a)
}

/// `prefix`, the rendering of `a`, `separator`, then the rendering of `b`.
pub open spec fn numbered_pair(prefix: Seq<char>, a: nat, separator: Seq<char>, b: nat) -> Seq<char> {
    prefix + decimal(a) + separator + decimal(b)
}

/// `key-` followed by the sample number.
pub open spec fn sample_key_text(sample: nat) -> Seq<char> {
    numbered(seq!['k', 'e', 'y', '-'], sample)
}

/// `queued-` followed by the sample number.
pub open spec fn queued_key_text(sample: nat) -> Seq<char> {
    numbered(seq!['q', 'u', 'e', 'u', 'e', 'd', '-'], sample)
}

/// `lifecycle-<sample>-<index>`.
pub open spec fn lifecycle_store_name_text(sample: nat, index: nat) -> Seq<char> {
    numbered_pair(seq!['l', 'i', 'f', 'e', 'c', 'y', 'c', 'l', 'e', '-'], sample, seq!['-'], index)
}

/// `key-<store>-<worker>`.
pub open spec fn lifecycle_save_key_text(store: nat, worker: nat) -> Seq<char> {
    numbered_pair(seq!['k', 'e', 'y', '-'], store, seq!['-'], worker)
}

/// The key every coordination operation uses when keys are shared.
pub open spec fn shared_key_text() -> Seq<char> {
    seq!['s', 'h', 'a', 'r', 'e', 'd', '-', 'k', 'e', 'y']
}

/// `worker-<worker>-operation-<operation>` when keys differ, else `shared-key`.
pub open spec fn coordination_key_text(different_keys: bool, worker: nat, operation: nat) -> Seq<char> {
    if different_keys {
        numbered_pair(
            seq!['w', 'o', 'r', 'k', 'e', 'r', '-'],
            worker,
            seq!['-', 'o', 'p', 'e', 'r', 'a', 't', 'i', 'o', 'n', '-'],
            operation,
        )
    } else {
        shared_key_text()
    }
}

/// `<prefix>-<seconds>-<nonce>`: the identifier of a run that was given none.
pub open spec fn generated_run_id_text(prefix: Seq<char>, seconds: nat, nonce: nat) -> Seq<char> {
    numbered_pair(prefix + seq!['-'], seconds, seq!['-'], nonce)
}

/// Numbered names with the same prefix are equal only for equal numbers.
pub proof fn law_numbered_injective(prefix: Seq<char>, a: nat, b: nat)
    requires
        numbered(prefix, a) == numbered(prefix, b),
    ensures
        a == b,
{
    assert(decimal(a) =~= numbered(prefix, a).skip(prefix.len() as int));
    assert(decimal(b) =~= numbered(prefix, b).skip(prefix.len() as int));
    law_decimal_injective(a, b);
}

/// Names made of two numbers are equal only for equal pairs of numbers, as
/// long as the separator starts with a non-digit.
pub proof fn law_numbered_pair_injective(
    prefix: Seq<char>,
    separator: Seq<char>,
    a1: nat,
    b1: nat,
    a2: nat,
    b2: nat,
)
    requires
        separator.len() > 0,
        !is_digit(separator[0]),
        numbered_pair(prefix, a1, separator, b1) == numbered_pair(prefix, a2, separator, b2),
    ensures
        a1 == a2,
        b1 == b2,
{
    let s1 = numbered_pair(prefix, a1, separator, b1);
    let s2 = numbered_pair(prefix, a2, separator, b2);
    let t1 = s1.skip(prefix.len() as int);
    let t2 = s2.skip(prefix.len() as int);
    assert(t1 =~= decimal(a1) + (separator + decimal(b1)));
    assert(t2 =~= decimal(a2) + (separator + decimal(b2)));
    lemma_decimal_shape(a1);
    lemma_decimal_shape(a2);
    assert((separator + decimal(b1))[0] == separator[0]);
    assert((separator + decimal(b2))[0] == separator[0]);
    lemma_digit_run_split(decimal(a1), separator + decimal(b1), decimal(a2), separator + decimal(b2));
    law_decimal_injective(a1, a2);
    assert(decimal(b1) =~= (separator + decimal(b1)).skip(separator.len() as int));
    assert(decimal(b2) =~= (separator + decimal(b2)).skip(separator.len() as int));
    law_decimal_injective(b1, b2);
}

/// Every sample of a workload writes its own key: distinct samples get
/// distinct keys, both for `key-<sample>` and for `queued-<sample>`.
pub proof fn law_sample_keys_distinct(a: nat, b: nat)
    requires
        a != b,
    ensures
        sample_key_text(a) != sample_key_text(b),
        queued_key_text(a) != queued_key_text(b),
{
    if sample_key_text(a) == sample_key_text(b) {
        law_numbered_injective(seq!['k', 'e', 'y', '-'], a, b);
    }
    if queued_key_text(a) == queued_key_text(b) {
        law_numbered_injective(seq!['q', 'u', 'e', 'u', 'e', 'd', '-'], a, b);
    }
}

/// Lifecycle stores of one run have distinct names, and the concurrent saves
/// into them use distinct keys: distinct pairs give distinct texts.
pub proof fn law_lifecycle_names_distinct(a1: nat, b1: nat, a2: nat, b2: nat)
    requires
        a1 != a2 || b1 != b2,
    ensures
        lifecycle_store_name_text(a1, b1) != lifecycle_store_name_text(a2, b2),
        lifecycle_save_key_text(a1, b1) != lifecycle_save_key_text(a2, b2),
{
    if lifecycle_store_name_text(a1, b1) == lifecycle_store_name_text(a2, b2) {
        law_numbered_pair_injective(
            seq!['l', 'i', 'f', 'e', 'c', 'y', 'c', 'l', 'e', '-'],
            seq!['-'],
            a1,
            b1,
            a2,
            b2,
        );
    }
    if lifecycle_save_key_text(a1, b1) == lifecycle_save_key_text(a2, b2) {
        law_numbered_pair_injective(seq!['k', 'e', 'y', '-'], seq!['-'], a1, b1, a2, b2);
    }
}

/// In the different-keys coordination workload no two operations share a key;
/// in the same-key workload every operation uses the one shared key.
pub proof fn law_coordination_keys(w1: nat, o1: nat, w2: nat, o2: nat)
    ensures
        (w1 != w2 || o1 != o2) ==> coordination_key_text(true, w1, o1) != coordination_key_text(
            true,
            w2,
            o2,
        ),
        coordination_key_text(false, w1, o1) == coordination_key_text(false, w2, o2),
{
    if (w1 != w2 || o1 != o2) && coordination_key_text(true, w1, o1) == coordination_key_text(
        true,
        w2,
        o2,
    ) {
        law_numbered_pair_injective(
            seq!['w', 'o', 'r', 'k', 'e', 'r', '-'],
            seq!['-', 'o', 'p', 'e', 'r', 'a', 't', 'i', 'o', 'n', '-'],
            w1,
            o1,
            w2,
            o2,
        );
    }
}

/// Renders `prefix` followed by the number.
fn render_numbered(prefix: &str, a: u64) -> (text: String)
    ensures
        text@ == numbered(prefix@, a as nat),
{
    let mut text = String::new();
    text.append(prefix);
    push_decimal(&mut text, a);
    text
}

/// Renders `prefix`, the first number, `separator`, then the second number.
fn render_numbered_pair(prefix: &str, a: u64, separator: &str, b: u64) -> (text: String)
    ensures
        text@ == numbered_pair(prefix@, a as nat, separator@, b as nat),
{
    let mut text = String::new();
    text.append(prefix);
    push_decimal(&mut text, a);
    text.append(separator);
    push_decimal(&mut text, b);
    proof {
        assert(text@ =~= numbered_pair(prefix@, a as nat, separator@, b as nat));
    }
    text
}

/// The key that sample `sample` of a file-store or backpressure workload uses.
pub fn sample_key(sample: usize) -> (key: String)
    ensures
        key@ == sample_key_text(sample as nat),
{
    proof {
        reveal_strlit("key-");
    }
    render_numbered("key-", sample as u64)
}

/// The key of the save that sample `sample` of the maintenance workload queues.
pub fn queued_key(sample: usize) -> (key: String)
    ensures
        key@ == queued_key_text(sample as nat),
{
    proof {
        reveal_strlit("queued-");
    }
    render_numbered("queued-", sample as u64)
}

/// The name of store `index` opened in sample `sample` of the lifecycle workload.
pub fn lifecycle_store_name(sample: usize, index: usize) -> (name: String)
    ensures
        name@ == lifecycle_store_name_text(sample as nat, index as nat),
{
    proof {
        reveal_strlit("lifecycle-");
        reveal_strlit("-");
    }
    render_numbered_pair("lifecycle-", sample as u64, "-", index as u64)
}

/// The key that worker `worker` saves into store `store` in the lifecycle workload.
pub fn lifecycle_save_key(store: usize, worker: usize) -> (key: String)
    ensures
        key@ == lifecycle_save_key_text(store as nat, worker as nat),
{
    proof {
        reveal_strlit("key-");
        reveal_strlit("-");
    }
    render_numbered_pair("key-", store as u64, "-", worker as u64)
}

/// The key that operation `operation` of worker `worker` inspects in the
/// coordination workload.
pub fn coordination_key(different_keys: bool, worker: usize, operation: usize) -> (key: String)
    ensures
        key@ == coordination_key_text(different_keys, worker as nat, operation as nat),
{
    if different_keys {
        proof {
            reveal_strlit("worker-");
            reveal_strlit("-operation-");
        }
        render_numbered_pair("worker-", worker as u64, "-operation-", operation as u64)
    } else {
        proof {
            reveal_strlit("shared-key");
        }
        let mut key = String::new();
        key.append("shared-key");
        key
    }
}

/// Builds the identifier `<prefix>-<seconds>-<nonce>` of a run.
pub fn generated_run_id(prefix: &str, seconds: u64, nonce: u32) -> (id: String)
    ensures
        id@ == generated_run_id_text(prefix@, seconds as nat, nonce as nat),
{
    proof {
        reveal_strlit("-");
    }
    let mut id = String::new();
    id.append(prefix);
    id.append("-");
    push_decimal(&mut id, seconds);
    id.append("-");
    push_decimal(&mut id, nonce as u64);
    proof {
        assert(id@ =~= generated_run_id_text(prefix@, seconds as nat, nonce as nat));
    }
    id
}

/// Calls `rand::random::<u32>()`, which draws a random number from the
/// thread-local generator. Nothing is claimed of the number.
#[verifier::external_body]
fn random_nonce() -> (nonce: u32) {
    rand::random::<u32>()
}

/// `std::time::SystemTime`, a reading of the system clock.
#[verifier::external_type_specification]
#[verifier::external_body]
pub struct ExSystemTime(std::time::SystemTime);

/// Calls `SystemTime::now`, which reads the system clock. Nothing is claimed
/// of the reading: it is the time.
#[verifier::external_body]
fn clock_now() -> (now: std::time::SystemTime) {
    std::time::SystemTime::now()
}

/// Calls `SystemTime::duration_since(UNIX_EPOCH)`: the time elapsed since the
/// Unix epoch, or `None` (std's error) for a reading before the epoch.
/// Nothing is claimed of the result, which depends on a clock reading.
#[verifier::external_body]
fn duration_since_unix_epoch(time: &std::time::SystemTime) -> (elapsed: Option<std::time::Duration>) {
    time.duration_since(std::time::UNIX_EPOCH).ok()
}

/// Calls `Duration::as_secs`, the whole seconds of a duration. `Duration` is
/// opaque here, so nothing is claimed of the number.
#[verifier::external_body]
fn whole_seconds(duration: &std::time::Duration) -> (seconds: u64) {
    duration.as_secs()
}

/// A clock reading before the epoch counts as zero seconds.
pub fn unix_secs_or_zero(since_epoch: Option<u64>) -> (seconds: u64)
    ensures
        seconds == match since_epoch {
            Some(s) => s,
            None => 0,
        },
{
    match since_epoch {
        Some(s) => s,
        None => 0,
    }
}

/// The current time in whole seconds since the Unix epoch, or 0 when the
/// clock reads earlier than the epoch.
pub fn unix_secs() -> (seconds: u64) {
    let now = clock_now();
    let since_epoch = match duration_since_unix_epoch(&now) {
        Some(elapsed) => Some(whole_seconds(&elapsed)),
        None => None,
    };
    unix_secs_or_zero(since_epoch)
}

/// The identifier of a run: the one given, or else `<prefix>-<seconds>-<nonce>`
/// built from the current time and a random number.
pub fn run_id(input: Option<&str>, prefix: &str) -> (id: String)
    ensures
        input.is_some() ==> id@ == input.unwrap()@,
        input.is_none() ==> exists|seconds: u64, nonce: u32|
            id@ == generated_run_id_text(prefix@, seconds as nat, nonce as nat),
{
    match input {
        Some(given) => given.to_owned(),
        None => {
            let seconds = unix_secs();
            let nonce = random_nonce();
            generated_run_id(prefix, seconds, nonce)
        },
    }
}

} // verus!
