use vstd::prelude::*;
use vstd::std_specs::iter::IteratorSpec;
use crate::decimal::{all_digits, digits_value, digit_value, is_digit};
use crate::error::{BenchError, ParseU64Error};

verus! {

/// The characters of a string, in order.
pub fn chars_of(text: &str) -> (chars: Vec<char>)
    ensures
        chars@ == text@,
{
    broadcast use vstd::string::group_string_axioms;

    let mut it = text.chars();
    let mut chars: Vec<char> = Vec::new();
    loop
        invariant
            chars@ + it.remaining() == text@,
            it.decrease() is Some,
        ensures
            chars@ == text@,
        decreases it.decrease()->0,
    {
        let next = it.next();
        match next {
            Some(c) => {
                proof {
                    assert(chars@.push(c) + it.remaining() =~= text@);
                }
                chars.push(c);
            },
            None => {
                proof {
                    assert(chars@ =~= text@);
                }
                break;
            },
        }
    }
    chars
}

/// Whether `c` has the Unicode `White_Space` property, as `char::is_whitespace` decides.
pub open spec fn is_whitespace(c: char) -> bool {
    ||| '\t' <= c <= '\r'
    ||| c == ' '
    ||| c == '\u{85}'
    ||| c == '\u{a0}'
    ||| c == '\u{1680}'
    ||| '\u{2000}' <= c <= '\u{200a}'
    ||| c == '\u{2028}'
    ||| c == '\u{2029}'
    ||| c == '\u{202f}'
    ||| c == '\u{205f}'
    ||| c == '\u{3000}'
}

/// The number of characters before the first `\n` of `s` (its length when it has none).
pub open spec fn newline_offset(s: Seq<char>) -> nat
    decreases s.len(),
{
    if s.len() == 0 || s[0] == '\n' {
        0
    } else {
        1 + newline_offset(s.drop_first())
    }
}

/// The first line of non-empty text as `str::lines` yields it: the text up to
/// the first `\n`, without that `\n` and without a `\r` just before it; the
/// whole text when it holds no `\n`.
pub open spec fn first_line(s: Seq<char>) -> Seq<char> {
    let e = newline_offset(s) as int;
    if e < s.len() {
        let line = s.take(e);
        if line.len() > 0 && line.last() == '\r' {
            line.drop_last()
        } else {
            line
        }
    } else {
        s
    }
}

/// The label of the peak resident set size in `/proc/self/status`.
pub open spec fn hwm_label() -> Seq<char> {
    seq!['V', 'm', 'H', 'W', 'M', ':']
}

/// Whether `s` begins with `prefix`.
pub open spec fn starts_with(s: Seq<char>, prefix: Seq<char>) -> bool {
    prefix.len() <= s.len() && s.take(prefix.len() as int) == prefix
}

/// What follows `VmHWM:` on the first line of the text that starts with it.
pub open spec fn hwm_field(s: Seq<char>) -> Option<Seq<char>>
    decreases s.len(),
{
    if s.len() == 0 {
        None
    } else if starts_with(first_line(s), hwm_label()) {
        Some(first_line(s).skip(6))
    } else if newline_offset(s) < s.len() {
        hwm_field(s.skip(newline_offset(s) + 1int))
    } else {
        None
    }
}

/// `s` without its leading whitespace.
pub open spec fn skip_whitespace(s: Seq<char>) -> Seq<char>
    decreases s.len(),
{
    if s.len() > 0 && is_whitespace(s[0]) {
        skip_whitespace(s.drop_first())
    } else {
        s
    }
}

/// The number of leading characters of `s` that are not whitespace.
pub open spec fn word_length(s: Seq<char>) -> nat
    decreases s.len(),
{
    if s.len() == 0 || is_whitespace(s[0]) {
        0
    } else {
        1 + word_length(s.drop_first())
    }
}

/// The first whitespace-separated word of `s`, as `split_whitespace().next()` gives it.
pub open spec fn first_word(s: Seq<char>) -> Option<Seq<char>> {
    let t = skip_whitespace(s);
    if t.len() == 0 {
        None
    } else {
        Some(t.take(word_length(t) as int))
    }
}

/// The number of leading ASCII digits of `s`.
pub open spec fn digit_run_length(s: Seq<char>) -> nat
    decreases s.len(),
{
    if s.len() == 0 || !is_digit(s[0]) {
        0
    } else {
        1 + digit_run_length(s.drop_first())
    }
}

/// What `str::parse::<u64>` makes of `t`. After an optional `+` (a lone `+`
/// is an invalid digit) the digits are read from the left; the first
/// character that is not a digit, or the first digit that takes the value
/// past `u64::MAX`, ends the reading with that error.
pub open spec fn parse_u64_text(t: Seq<char>) -> Result<u64, ParseU64Error> {
    if t.len() == 0 {
        Err(ParseU64Error::Empty)
    } else {
        let digits = if t[0] == '+' {
            t.drop_first()
        } else {
            t
        };
        let run = digit_run_length(digits) as int;
        if digits.len() == 0 {
            Err(ParseU64Error::InvalidDigit)
        } else if digits_value(digits.take(run)) > u64::MAX {
            Err(ParseU64Error::PosOverflow)
        } else if run < digits.len() {
            Err(ParseU64Error::InvalidDigit)
        } else {
            Ok(digits_value(digits) as u64)
        }
    }
}

/// The peak resident set size in bytes that `/proc/self/status` reports: the
/// first word after `VmHWM:`, read as a count of kibibytes.
pub open spec fn peak_rss_from_status(status: Seq<char>) -> Result<u64, BenchError> {
    match hwm_field(status) {
        None => Err(BenchError::RssFieldMissing),
        Some(field) => match first_word(field) {
            None => Err(BenchError::RssFieldMissing),
            Some(word) => match parse_u64_text(word) {
                Err(kind) => Err(BenchError::RssValueInvalid { kind }),
                Ok(kib) => if kib * 1024 <= u64::MAX {
                    Ok((kib * 1024) as u64)
                } else {
                    Err(BenchError::RssValueOverflow)
                },
            },
        },
    }
}

proof fn lemma_newline_offset(s: Seq<char>, k: int)
    requires
        0 <= k <= s.len(),
        forall|m: int| 0 <= m < k ==> s[m] != '\n',
        k == s.len() || s[k] == '\n',
    ensures
        newline_offset(s) == k,
    decreases k,
{
    if k > 0 {
        lemma_newline_offset(s.drop_first(), k - 1);
    }
}

pub proof fn lemma_skip_whitespace(s: Seq<char>, k: int)
    requires
        0 <= k <= s.len(),
        forall|m: int| 0 <= m < k ==> is_whitespace(s[m]),
        k == s.len() || !is_whitespace(s[k]),
    ensures
        skip_whitespace(s) == s.skip(k),
    decreases k,
{
    if k > 0 {
        lemma_skip_whitespace(s.drop_first(), k - 1);
        assert(s.drop_first().skip(k - 1) =~= s.skip(k));
    } else {
        assert(s.skip(0) =~= s);
    }
}

proof fn lemma_word_length(s: Seq<char>, k: int)
    requires
        0 <= k <= s.len(),
        forall|m: int| 0 <= m < k ==> !is_whitespace(s[m]),
        k == s.len() || is_whitespace(s[k]),
    ensures
        word_length(s) == k,
    decreases k,
{
    if k > 0 {
        lemma_word_length(s.drop_first(), k - 1);
    }
}

proof fn lemma_digits_value_step(d: Seq<char>, k: int)
    requires
        0 <= k < d.len(),
        is_digit(d[k]),
    ensures
        digits_value(d.take(k + 1)) == digits_value(d.take(k)) * 10 + digit_value(d[k]),
{
    assert(d.take(k + 1).drop_last() =~= d.take(k));
    assert(d.take(k + 1).last() == d[k]);
}

proof fn lemma_digits_value_prefix(d: Seq<char>, k: int)
    requires
        0 <= k <= d.len(),
        all_digits(d),
    ensures
        digits_value(d.take(k)) <= digits_value(d),
    decreases d.len(),
{
    if k < d.len() {
        let p = d.drop_last();
        assert(all_digits(p));
        lemma_digits_value_prefix(p, k);
        assert(p.take(k) =~= d.take(k));
        assert(is_digit(d.last()));
    } else {
        assert(d.take(k) =~= d);
    }
}

proof fn lemma_digit_run_length(s: Seq<char>, k: int)
    requires
        0 <= k <= s.len(),
        forall|m: int| 0 <= m < k ==> is_digit(s[m]),
        k == s.len() || !is_digit(s[k]),
    ensures
        digit_run_length(s) == k,
    decreases k,
{
    if k > 0 {
        lemma_digit_run_length(s.drop_first(), k - 1);
    }
}

proof fn lemma_digit_run_covers(s: Seq<char>, j: int)
    requires
        0 <= j <= s.len(),
        forall|m: int| 0 <= m < j ==> is_digit(s[m]),
    ensures
        j <= digit_run_length(s) <= s.len(),
        all_digits(s.take(digit_run_length(s) as int)),
    decreases s.len(),
{
    if s.len() > 0 && is_digit(s[0]) {
        let r = s.drop_first();
        let j1 = if j > 0 { j - 1 } else { 0 };
        lemma_digit_run_covers(r, j1);
        let k = digit_run_length(s) as int;
        assert forall|i: int| 0 <= i < k implies is_digit(#[trigger] s.take(k)[i]) by {
            if i > 0 {
                assert(r.take(k - 1)[i - 1] == s.take(k)[i]);
            }
        }
    }
}

pub fn char_is_whitespace(c: char) -> (b: bool)
    ensures
        b == is_whitespace(c),
{
    ('\t' <= c && c <= '\r') || c == ' ' || c == '\u{85}' || c == '\u{a0}' || c == '\u{1680}'
        || ('\u{2000}' <= c && c <= '\u{200a}') || c == '\u{2028}' || c == '\u{2029}'
        || c == '\u{202f}' || c == '\u{205f}' || c == '\u{3000}'
}

/// Reads `chars[from..to]` as `str::parse::<u64>` does.
fn parse_u64_chars(chars: &Vec<char>, from: usize, to: usize) -> (value: Result<u64, ParseU64Error>)
    requires
        from <= to <= chars@.len(),
    ensures
        value == parse_u64_text(chars@.subrange(from as int, to as int)),
{
    let ghost t = chars@.subrange(from as int, to as int);
    if from == to {
        return Err(ParseU64Error::Empty);
    }
    let mut start = from;
    if chars[start] == '+' {
        start = start + 1;
    }
    let ghost digits = chars@.subrange(start as int, to as int);
    proof {
        if chars@[from as int] == '+' {
            assert(t.drop_first() =~= digits);
        } else {
            assert(t =~= digits);
        }
    }
    if start == to {
        proof {
            assert(digits.len() == 0);
        }
        return Err(ParseU64Error::InvalidDigit);
    }
    let mut acc: u64 = 0;
    let mut m = start;
    while m < to
        invariant
            from <= start <= m <= to <= chars@.len(),
            t == chars@.subrange(from as int, to as int),
            digits == chars@.subrange(start as int, to as int),
            digits.len() > 0,
            t.len() > 0,
            digits == (if t[0] == '+' {
                t.drop_first()
            } else {
                t
            }),
            acc == digits_value(digits.take(m - start)),
            forall|i: int| 0 <= i < m - start ==> is_digit(#[trigger] digits[i]),
        decreases to - m,
    {
        let c = chars[m];
        let ghost k = m - start;
        proof {
            assert(digits[k] == c);
        }
        if !('0' <= c && c <= '9') {
            proof {
                lemma_digit_run_length(digits, k);
                assert(digits.take(k) =~= digits.take(digit_run_length(digits) as int));
            }
            return Err(ParseU64Error::InvalidDigit);
        }
        proof {
            lemma_digits_value_step(digits, k);
        }
        let d = (c as u32 - 48) as u64;
        let next = match acc.checked_mul(10) {
            Some(t10) => t10.checked_add(d),
            None => None,
        };
        match next {
            Some(v) => {
                acc = v;
                m = m + 1;
            },
            None => {
                proof {
                    lemma_digit_run_covers(digits, k + 1);
                    let run = digit_run_length(digits) as int;
                    let prefix = digits.take(run);
                    lemma_digits_value_prefix(prefix, k + 1);
                    assert(prefix.take(k + 1) =~= digits.take(k + 1));
                }
                return Err(ParseU64Error::PosOverflow);
            },
        }
    }
    proof {
        lemma_digit_run_length(digits, digits.len() as int);
        assert(digits.take(m - start) =~= digits);
    }
    Ok(acc)
}

/// Reads the field after `VmHWM:`, held in `chars[from..to]`, as a count of
/// kibibytes and converts it to bytes.
fn field_bytes(chars: &Vec<char>, from: usize, to: usize) -> (bytes: Result<u64, BenchError>)
    requires
        from <= to <= chars@.len(),
    ensures
        bytes == match first_word(chars@.subrange(from as int, to as int)) {
            None => Err(BenchError::RssFieldMissing),
            Some(word) => match parse_u64_text(word) {
                Err(kind) => Err(BenchError::RssValueInvalid { kind }),
                Ok(kib) => if kib * 1024 <= u64::MAX {
                    Ok((kib * 1024) as u64)
                } else {
                    Err(BenchError::RssValueOverflow)
                },
            },
        },
{
    let ghost field = chars@.subrange(from as int, to as int);
    let mut i = from;
    while i < to && char_is_whitespace(chars[i])
        invariant
            from <= i <= to <= chars@.len(),
            forall|m: int| from <= m < i ==> is_whitespace(chars@[m]),
        decreases to - i,
    {
        i = i + 1;
    }
    proof {
        lemma_skip_whitespace(field, i - from);
    }
    let ghost rest = chars@.subrange(i as int, to as int);
    proof {
        assert(field.skip(i - from) =~= rest);
    }
    if i == to {
        return Err(BenchError::RssFieldMissing);
    }
    let mut j = i;
    while j < to && !char_is_whitespace(chars[j])
        invariant
            i <= j <= to <= chars@.len(),
            forall|m: int| i <= m < j ==> !is_whitespace(chars@[m]),
        decreases to - j,
    {
        j = j + 1;
    }
    proof {
        lemma_word_length(rest, j - i);
        assert(rest.take(j - i) =~= chars@.subrange(i as int, j as int));
    }
    match parse_u64_chars(chars, i, j) {
        Err(kind) => Err(BenchError::RssValueInvalid { kind }),
        Ok(kib) => match kib.checked_mul(1024) {
            Some(bytes) => Ok(bytes),
            None => Err(BenchError::RssValueOverflow),
        },
    }
}

/// Whether `chars[from..to]` begins with `VmHWM:`.
fn starts_with_hwm_label(chars: &Vec<char>, from: usize, to: usize) -> (found: bool)
    requires
        from <= to <= chars@.len(),
    ensures
        found == starts_with(chars@.subrange(from as int, to as int), hwm_label()),
{
    let ghost line = chars@.subrange(from as int, to as int);
    if to - from < 6 {
        return false;
    }
    let found = chars[from] == 'V' && chars[from + 1] == 'm' && chars[from + 2] == 'H'
        && chars[from + 3] == 'W' && chars[from + 4] == 'M' && chars[from + 5] == ':';
    proof {
        if found {
            assert(line.take(6) =~= hwm_label());
        } else {
            let p = line.take(6);
            let l = hwm_label();
            if chars@[from as int] != 'V' {
                assert(p[0] != l[0]);
            } else if chars@[from + 1] != 'm' {
                assert(p[1] != l[1]);
            } else if chars@[from + 2] != 'H' {
                assert(p[2] != l[2]);
            } else if chars@[from + 3] != 'W' {
                assert(p[3] != l[3]);
            } else if chars@[from + 4] != 'M' {
                assert(p[4] != l[4]);
            } else {
                assert(p[5] != l[5]);
            }
        }
    }
    found
}

/// The peak resident set size in bytes, read from the text of
/// `/proc/self/status`: the first word after `VmHWM:` on the first line that
/// starts with it, a count of kibibytes.
pub fn peak_rss_bytes(status: &str) -> (bytes: Result<u64, BenchError>)
    ensures
        bytes == peak_rss_from_status(status@),
{
    let chars = chars_of(status);
    let n = chars.len();
    let mut pos: usize = 0;
    proof {
        assert(chars@.skip(0) =~= chars@);
    }
    while pos < n
        invariant
            n == chars@.len(),
            chars@ == status@,
            pos <= n,
            hwm_field(status@) == hwm_field(chars@.skip(pos as int)),
        decreases n - pos,
    {
        let ghost rest = chars@.skip(pos as int);
        let mut end = pos;
        while end < n && chars[end] != '\n'
            invariant
                pos <= end <= n,
                n == chars@.len(),
                forall|m: int| pos <= m < end ==> chars@[m] != '\n',
            decreases n - end,
        {
            end = end + 1;
        }
        proof {
            lemma_newline_offset(rest, end - pos);
        }
        let line_end = if end < n && end > pos && chars[end - 1] == '\r' {
            end - 1
        } else {
            end
        };
        proof {
            if end < n {
                assert(rest.take(end - pos) =~= chars@.subrange(pos as int, end as int));
                if end > pos && chars@[end - 1] == '\r' {
                    assert(chars@.subrange(pos as int, end as int).drop_last() =~= chars@.subrange(
                        pos as int,
                        line_end as int,
                    ));
                }
            } else {
                assert(rest =~= chars@.subrange(pos as int, n as int));
            }
            assert(first_line(rest) == chars@.subrange(pos as int, line_end as int));
        }
        if starts_with_hwm_label(&chars, pos, line_end) {
            proof {
                assert(first_line(rest).skip(6) =~= chars@.subrange(pos + 6, line_end as int));
            }
            return field_bytes(&chars, pos + 6, line_end);
        }
        if end < n {
            proof {
                assert(rest.skip(end - pos + 1) =~= chars@.skip(end + 1));
            }
            pos = end + 1;
        } else {
            return Err(BenchError::RssFieldMissing);
        }
    }
    proof {
        assert(chars@.skip(pos as int).len() == 0);
    }
    Err(BenchError::RssFieldMissing)
}

/// How many threads a measurement adds to a baseline; none when it has fewer.
pub fn thread_delta(current: usize, baseline: usize) -> (delta: usize)
    ensures
        delta == if current >= baseline {
            current - baseline
        } else {
            0
        },
{
    current.saturating_sub(baseline)
}

/// The largest of the thread deltas, or 0 when there are none.
pub fn max_thread_delta(deltas: &[usize]) -> (max: usize)
    ensures
        forall|i: int| 0 <= i < deltas@.len() ==> deltas@[i] <= max,
        deltas@.len() == 0 ==> max == 0,
        deltas@.len() > 0 ==> deltas@.contains(max),
{
    let mut max: usize = 0;
    let mut i: usize = 0;
    while i < deltas.len()
        invariant
            i <= deltas@.len(),
            forall|k: int| 0 <= k < i ==> deltas@[k] <= max,
            i == 0 ==> max == 0,
            i > 0 ==> exists|k: int| 0 <= k < i && deltas@[k] == max,
        decreases deltas@.len() - i,
    {
        if deltas[i] > max || i == 0 {
            max = deltas[i];
        }
        i = i + 1;
    }
    proof {
        if deltas@.len() > 0 {
            let k = choose|k: int| 0 <= k < deltas@.len() && deltas@[k] == max;
            assert(deltas@[k] == max);
        }
    }
    max
}

} // verus!
