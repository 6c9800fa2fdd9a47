use vstd::prelude::*;

verus! {

/// `s` without the NUL characters at its end.
pub open spec fn without_trailing_nul(s: Seq<char>) -> Seq<char>
    decreases s.len(),
{
    if s.len() > 0 && s.last() == '\0' {
        without_trailing_nul(s.drop_last())
    } else {
        s
    }
}

/// `s` without the NUL characters at its start.
pub open spec fn without_leading_nul(s: Seq<char>) -> Seq<char>
    decreases s.len(),
{
    if s.len() > 0 && s[0] == '\0' {
        without_leading_nul(s.drop_first())
    } else {
        s
    }
}

/// `s` without the NUL characters at either end.
pub open spec fn without_nul_padding(s: Seq<char>) -> Seq<char> {
    without_leading_nul(without_trailing_nul(s))
}

/// The number of bytes of the UTF-8 encoding of `s`.
pub open spec fn utf8_len(s: Seq<char>) -> nat {
    vstd::utf8::encode_utf8(s).len()
}

/// Relies on `str::trim_end_matches` with the pattern `'\0'`: the text
/// without the NUL characters at its end.
#[verifier::external_body]
pub(crate) fn trim_trailing_nul(s: &str) -> (r: String)
    ensures
        r@ == without_trailing_nul(s@),
{
    s.trim_end_matches('\0').to_string()
}

/// Relies on `str::trim_matches` with the pattern `'\0'`: the text without
/// the NUL characters at either end.
#[verifier::external_body]
pub(crate) fn trim_nul(s: &str) -> (r: String)
    ensures
        r@ == without_nul_padding(s@),
{
    s.trim_matches('\0').to_string()
}

/// The number of bytes of the UTF-8 encoding of `s`.
pub fn byte_len(s: &String) -> (r: usize)
    ensures
        r == utf8_len(s@),
{
    s.as_str().as_bytes().len()
}

} // verus!
