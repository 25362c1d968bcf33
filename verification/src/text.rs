//! Contracts for the few `std` string operations the library relies on and
//! that `vstd` leaves unspecified.

use vstd::prelude::*;
use vstd::utf8::*;

verus! {

/// `String::push` appends the given character at the end of the string
/// (std documentation: "Appends the given char to the end of this String").
pub assume_specification[ std::string::String::push ](string: &mut String, ch: char)
    ensures
        final(string)@ == old(string)@.push(ch),
;

/// `String::pop` removes the last character and returns it, or returns `None`
/// and leaves the string alone when it is empty (std documentation: "Removes
/// the last character from the string buffer and returns it. Returns None if
/// this String is empty.").
pub assume_specification[ std::string::String::pop ](string: &mut String) -> (res: Option<char>)
    ensures
        old(string)@.len() == 0 ==> res is None && final(string)@ == old(string)@,
        old(string)@.len() > 0 ==> res == Some(old(string)@.last()) && final(string)@
            == old(string)@.drop_last(),
;

/// Wraps `std::str::from_utf8`: the bytes are accepted exactly when they are
/// well-formed UTF-8, and the string handed back holds the characters they
/// encode (std documentation: "Converts a slice of bytes to a string slice ...
/// If the slice is not valid UTF-8, returns an error").
#[verifier::external_body]
pub(crate) fn str_from_utf8(bytes: &[u8]) -> (res: Option<&str>)
    ensures
        res is Some <==> valid_utf8(bytes@),
        res matches Some(s) ==> s@ == decode_utf8(bytes@),
{
    std::str::from_utf8(bytes).ok()
}

} // verus!
