use vstd::prelude::*;

verus! {

/// Unicode `White_Space` code points, which `char::is_whitespace` recognises.
pub open spec fn is_white_space(c: char) -> bool {
    let u = c as u32;
    ||| 0x09 <= u <= 0x0d
    ||| u == 0x20
    ||| u == 0x85
    ||| u == 0xa0
    ||| u == 0x1680
    ||| 0x2000 <= u <= 0x200a
    ||| u == 0x2028
    ||| u == 0x2029
    ||| u == 0x202f
    ||| u == 0x205f
    ||| u == 0x3000
}

/// `s` without its leading white space.
pub open spec fn trim_start(s: Seq<char>) -> Seq<char>
    decreases s.len(),
{
    if s.len() > 0 && is_white_space(s[0]) {
        trim_start(s.drop_first())
    } else {
        s
    }
}

/// `s` without its trailing white space.
pub open spec fn trim_end(s: Seq<char>) -> Seq<char>
    decreases s.len(),
{
    if s.len() > 0 && is_white_space(s.last()) {
        trim_end(s.drop_last())
    } else {
        s
    }
}

/// `s` without leading and trailing white space.
pub open spec fn trimmed(s: Seq<char>) -> Seq<char> {
    trim_end(trim_start(s))
}

/// `str::trim`: the slice of `s` without leading and trailing Unicode white space.
#[verifier::external_body]
pub(crate) fn trim<'a>(s: &'a str) -> (r: &'a str)
    ensures
        r@ == trimmed(s@),
{
    s.trim()
}

/// Whether `s` holds more than `limit` characters.
pub fn exceeds_char_count(s: &str, limit: usize) -> (r: bool)
    ensures
        r == (s@.len() > limit),
{
    let mut count: usize = 0;
    for _c in it: s.chars()
        invariant
            count == it.index(),
            count <= limit,
            it.seq() == s@,
    {
        if count == limit {
            return true;
        }
        count = count + 1;
    }
    false
}

/// The number of bytes of the UTF-8 encoding of `s`.
pub open spec fn utf8_len(s: Seq<char>) -> nat {
    vstd::utf8::encode_utf8(s).len()
}

/// A text can be sent as a query argument: its encoding fits the protocol's
/// 32-bit length.
pub open spec fn fits_bind(s: Seq<char>) -> bool {
    utf8_len(s) <= i32::MAX
}

/// An optional text can be sent as a query argument.
pub open spec fn opt_fits_bind(s: Option<String>) -> bool {
    s matches Some(t) ==> fits_bind(t@)
}

/// A character takes at most four bytes in UTF-8.
pub proof fn lemma_utf8_len_bound(s: Seq<char>)
    ensures
        utf8_len(s) <= 4 * s.len(),
    decreases s.len(),
{
    if s.len() > 0 {
        lemma_utf8_len_bound(s.drop_first());
    }
}

/// Whether a text can be sent as a query argument.
pub fn text_fits_bind(s: &str) -> (r: bool)
    requires
        utf8_len(s@) <= usize::MAX,
    ensures
        r == fits_bind(s@),
{
    s.len() <= 2147483647usize
}

} // verus!
