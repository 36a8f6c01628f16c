use crate::digest::{sha256, sha256_of};
use vstd::prelude::*;
use vstd::string::*;
use vstd::utf8::encode_utf8;

verus! {

/// Whether `c` has the Unicode property `White_Space`, as `char::is_whitespace` decides it.
pub uninterp spec fn white_space(c: char) -> bool;

/// `char::is_whitespace` is believed to decide `white_space`: the table behind it is not
/// written out here.
pub assume_specification[ char::is_whitespace ](c: char) -> (b: bool)
    ensures
        b == white_space(c),
;

/// `s` without its leading white space.
pub open spec fn trim_start(s: Seq<char>) -> Seq<char>
    decreases s.len(),
{
    if s.len() > 0 && white_space(s.first()) {
        trim_start(s.drop_first())
    } else {
        s
    }
}

/// `s` without its trailing white space.
pub open spec fn trim_end(s: Seq<char>) -> Seq<char>
    decreases s.len(),
{
    if s.len() > 0 && white_space(s.last()) {
        trim_end(s.drop_last())
    } else {
        s
    }
}

/// `s` without leading and trailing white space.
pub open spec fn trimmed(s: Seq<char>) -> Seq<char> {
    trim_end(trim_start(s))
}

/// The label under which two spellings count as one: trimmed, then in lower case.
pub open spec fn canonical(label: Seq<char>) -> Seq<char> {
    lowercase(trimmed(label))
}

/// The commitment that a caller owes for `label`: the digest of its canonical form's bytes.
pub open spec fn commitment(label: Seq<char>) -> Seq<u8> {
    sha256(encode_utf8(canonical(label)))
}

/// What `str::to_lowercase` returns for `s`: the Unicode lower-case mapping of the whole
/// string, which depends on nothing but `s`.
pub uninterp spec fn lowercase(s: Seq<char>) -> Seq<char>;

/// `str::to_lowercase` is believed to compute `lowercase`.
pub assume_specification[ str::to_lowercase ](s: &str) -> (lower: String)
    ensures
        lower@ == lowercase(s@),
;

fn chars_of(s: &str) -> (v: Vec<char>)
    ensures
        v@ == s@,
{
    let mut v: Vec<char> = Vec::new();
    for c in it: s.chars()
        invariant
            it.seq() == s@,
            v@ == it.seq().take(it.index() as int),
    {
        v.push(c);
    }
    v
}

/// `label` without the white space around it.
pub fn trim(label: &str) -> (inner: &str)
    ensures
        inner@ == trimmed(label@),
{
    let chars = chars_of(label);
    let n: usize = chars.len();
    let mut start: usize = 0;
    assert(label@.skip(0) =~= label@);
    while start < n && chars[start].is_whitespace()
        invariant
            start <= n,
            n == chars.len(),
            chars@ == label@,
            trim_start(label@) == trim_start(label@.skip(start as int)),
        decreases n - start,
    {
        assert(label@.skip(start as int).drop_first() =~= label@.skip(start + 1));
        start += 1;
    }
    assert(trim_start(label@) == label@.skip(start as int));
    assert(label@.skip(start as int) =~= label@.subrange(start as int, n as int));
    let mut end: usize = n;
    while end > start && chars[end - 1].is_whitespace()
        invariant
            start <= end <= n,
            n == chars.len(),
            chars@ == label@,
            trimmed(label@) == trim_end(label@.subrange(start as int, end as int)),
        decreases end,
    {
        assert(label@.subrange(start as int, end as int).drop_last() =~= label@.subrange(
            start as int,
            end - 1,
        ));
        end -= 1;
    }
    label.substring_char(start, end)
}

/// The canonical form of `label`.
pub fn canonicalize(label: &str) -> (form: String)
    ensures
        form@ == canonical(label@),
{
    trim(label).to_lowercase()
}

/// The digest that stands for a label once it is trimmed: that of its lower-case bytes.
pub fn seed_of_trimmed(inner: &str) -> (seed: [u8; 32])
    ensures
        seed@ == sha256(encode_utf8(lowercase(inner@))),
{
    let lower = inner.to_lowercase();
    sha256_of(lower.as_str().as_bytes())
}

/// The commitment to hand in when registering `label`.
pub fn label_seed(label: &str) -> (seed: [u8; 32])
    ensures
        seed@ == commitment(label@),
{
    seed_of_trimmed(trim(label))
}

} // verus!
