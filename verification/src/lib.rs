//! Small helpers for working with borrowed strings: measuring a string's
//! byte length through a shared borrow, and growing it in place through a
//! mutable borrow.

use vstd::prelude::*;
use vstd::string::StringExecFns;
use vstd::utf8::is_ascii_chars;
use vstd::utf8::is_ascii_chars_encode_utf8;

verus! {

broadcast use vstd::slice::axiom_spec_len;

/// The number of bytes in the UTF-8 encoding of the characters `s`.
pub open spec fn byte_length(s: Seq<char>) -> nat {
    vstd::utf8::encode_utf8(s).len()
}

/// Returns the length in bytes of the borrowed string, leaving it unchanged.
/// For a string of ASCII characters this equals the number of characters.
pub fn calculate_length(s: &String) -> (len: usize)
    ensures
        len == byte_length(s@),
        is_ascii_chars(s@) ==> len == s@.len(),
{
    proof {
        if is_ascii_chars(s@) {
            is_ascii_chars_encode_utf8(s@);
        }
    }
    let bytes = s.as_str().as_bytes();
    bytes.len()
}

/// Appends " world" to the borrowed string in place.
pub fn change_string(s: &mut String)
    ensures
        final(s)@ == old(s)@ + " world"@,
{
    s.append(" world");
}

} // verus!
