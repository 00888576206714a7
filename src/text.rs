use vstd::prelude::*;
use vstd::utf8::{decode_utf8, valid_utf8};

verus! {

/// Unicode's White_Space property, which `char::is_whitespace` tests.
pub open spec fn is_white_space(c: char) -> bool {
    ('\t' <= c && c <= '\r') || c == ' ' || c == '\u{85}' || c == '\u{a0}' || c == '\u{1680}'
        || ('\u{2000}' <= c && c <= '\u{200a}') || c == '\u{2028}' || c == '\u{2029}'
        || c == '\u{202f}' || c == '\u{205f}' || c == '\u{3000}'
}

/// `s` without its trailing white space.
pub open spec fn trimmed_end(s: Seq<char>) -> Seq<char>
    decreases s.len(),
{
    if s.len() > 0 && is_white_space(s.last()) {
        trimmed_end(s.drop_last())
    } else {
        s
    }
}

/// `s` without its leading white space.
pub open spec fn trimmed_start(s: Seq<char>) -> Seq<char>
    decreases s.len(),
{
    if s.len() > 0 && is_white_space(s[0]) {
        trimmed_start(s.drop_first())
    } else {
        s
    }
}

/// `s` without white space at either end.
pub open spec fn trimmed(s: Seq<char>) -> Seq<char> {
    trimmed_start(trimmed_end(s))
}

/// Relies on `str::trim_end`: drops the trailing chars for which `char::is_whitespace` holds.
#[verifier::external_body]
pub(crate) fn trim_end_of(s: &str) -> (r: &str)
    ensures
        r@ == trimmed_end(s@),
{
    s.trim_end()
}

/// Relies on `str::trim`: drops the leading and trailing chars for which
/// `char::is_whitespace` holds.
#[verifier::external_body]
pub(crate) fn trim_of(s: &str) -> (r: &str)
    ensures
        r@ == trimmed(s@),
{
    s.trim()
}

/// Relies on `std::str::from_utf8`: it accepts exactly the valid UTF-8 byte
/// sequences and yields the chars they encode; its error is kept as text.
#[verifier::external_body]
pub(crate) fn utf8_of(b: &[u8]) -> (r: Result<&str, String>)
    ensures
        r is Ok <==> valid_utf8(b@),
        r is Ok ==> r->Ok_0@ == decode_utf8(b@),
{
    std::str::from_utf8(b).map_err(|e| e.to_string())
}

/// Appending white space to a text does not change its trimmed form.
pub proof fn lemma_trailing_white_space_ignored(t: Seq<char>, w: Seq<char>)
    requires
        forall|i: int| 0 <= i < w.len() ==> is_white_space(#[trigger] w[i]),
    ensures
        trimmed_end(t + w) == trimmed_end(t),
        trimmed(t + w) == trimmed(t),
    decreases w.len(),
{
    if w.len() > 0 {
        let w2 = w.drop_last();
        assert((t + w).drop_last() =~= t + w2);
        assert((t + w).last() == w.last());
        lemma_trailing_white_space_ignored(t, w2);
    } else {
        assert(t + w =~= t);
    }
}

/// Text that does not end in white space is its own trailing-trimmed form.
pub proof fn lemma_trimmed_end_keeps(t: Seq<char>)
    requires
        t.len() == 0 || !is_white_space(t.last()),
    ensures
        trimmed_end(t) == t,
{
}

} // verus!
