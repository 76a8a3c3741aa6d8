use vstd::prelude::*;
use vstd::string::StringSliceAdditionalSpecFns;
use vstd::utf8::encode_utf8;

verus! {

/// Whether two pieces of text hold the same characters.
pub fn same_text(a: &str, b: &str) -> (same: bool)
    ensures
        same == (a@ == b@),
{
    let left = a.to_owned();
    let right = b.to_owned();
    left == right
}

/// The length of a text in bytes of UTF-8.
pub open spec fn byte_length(text: Seq<char>) -> nat {
    encode_utf8(text).len()
}

/// The length of a text in bytes of UTF-8.
pub fn byte_len(text: &str) -> (length: usize)
    ensures
        length == byte_length(text@),
{
    let bytes = text.as_bytes();
    bytes.len()
}

} // verus!
