use vstd::prelude::*;
use crate::procfs::{char_is_whitespace, chars_of, is_whitespace, lemma_skip_whitespace, skip_whitespace};

verus! {

/// The text that `String::from_utf8_lossy` decodes from the bytes: UTF-8 with
/// each invalid sequence replaced by U+FFFD.
pub uninterp spec fn utf8_lossy_of(bytes: Seq<u8>) -> Seq<char>;

/// Calls `String::from_utf8_lossy`, which decodes UTF-8 and replaces each
/// invalid sequence with U+FFFD; the borrowed or owned result is made a
/// `String`. The contract claims that the text is a function of the bytes
/// alone, named `utf8_lossy_of`.
#[verifier::external_body]
fn decode_utf8_lossy(bytes: &[u8]) -> (text: String)
    ensures
        text@ == utf8_lossy_of(bytes@),
{
    String::from_utf8_lossy(bytes).into_owned()
}

/// `s` without its trailing whitespace.
pub open spec fn trim_end_whitespace(s: Seq<char>) -> Seq<char>
    decreases s.len(),
{
    if s.len() > 0 && is_whitespace(s.last()) {
        trim_end_whitespace(s.drop_last())
    } else {
        s
    }
}

/// `s` without leading and trailing whitespace, as `str::trim` gives it.
pub open spec fn trim_whitespace(s: Seq<char>) -> Seq<char> {
    trim_end_whitespace(skip_whitespace(s))
}

proof fn lemma_trim_end_whitespace(s: Seq<char>, k: int)
    requires
        0 <= k <= s.len(),
        forall|m: int| k <= m < s.len() ==> is_whitespace(s[m]),
        k == 0 || !is_whitespace(s[k - 1]),
    ensures
        trim_end_whitespace(s) == s.take(k),
    decreases s.len() - k,
{
    if k < s.len() {
        lemma_trim_end_whitespace(s.drop_last(), k);
        assert(s.drop_last().take(k) =~= s.take(k));
    } else {
        assert(s.take(k) =~= s);
    }
}

/// The text without leading and trailing whitespace, as `str::trim` gives it.
pub fn trimmed_text(text: &str) -> (trimmed: String)
    ensures
        trimmed@ == trim_whitespace(text@),
{
    let chars = chars_of(text);
    let n = chars.len();
    let mut start: usize = 0;
    while start < n && char_is_whitespace(chars[start])
        invariant
            start <= n,
            n == chars@.len(),
            forall|m: int| 0 <= m < start ==> is_whitespace(chars@[m]),
        decreases n - start,
    {
        start = start + 1;
    }
    let mut end: usize = n;
    while end > start && char_is_whitespace(chars[end - 1])
        invariant
            start <= end <= n,
            n == chars@.len(),
            forall|m: int| end <= m < n ==> is_whitespace(chars@[m]),
        decreases end - start,
    {
        end = end - 1;
    }
    proof {
        let s = chars@;
        lemma_skip_whitespace(s, start as int);
        let rest = s.skip(start as int);
        lemma_trim_end_whitespace(rest, end - start);
        assert(rest.take(end - start) =~= s.subrange(start as int, end as int));
    }
    text.substring_char(start, end).to_owned()
}

/// The text a command printed, as the harness records it: the output bytes
/// decoded as UTF-8 (invalid sequences replaced) with surrounding whitespace
/// trimmed.
pub fn command_output_text(stdout: &[u8]) -> (text: String)
    ensures
        text@ == trim_whitespace(utf8_lossy_of(stdout@)),
{
    let decoded = decode_utf8_lossy(stdout);
    trimmed_text(decoded.as_str())
}

/// Whether `git status --porcelain` reported changes: it ran and printed something.
pub fn working_tree_dirty(status: &Option<String>) -> (dirty: bool)
    ensures
        dirty == (status.is_some() && status.unwrap()@.len() > 0),
{
    match status {
        Some(text) => !text.as_str().is_empty(),
        None => false,
    }
}

/// The build target as the harness reports it: `<arch>-<os>`.
pub fn target_text(arch: &str, os: &str) -> (target: String)
    ensures
        target@ == arch@ + seq!['-'] + os@,
{
    proof {
        reveal_strlit("-");
    }
    let mut target = String::new();
    target.append(arch);
    target.append("-");
    target.append(os);
    proof {
        assert(target@ =~= arch@ + seq!['-'] + os@);
    }
    target
}

} // verus!
