//! Specifications of the standard library functions that this crate calls
//! and that `vstd` leaves without one. They are believed, not proved.
use vstd::prelude::*;
use vstd::utf8::{encode_utf8, valid_utf8};

verus! {

/// The error of `String::from_utf8`. Nothing is read from it.
#[verifier::external_type_specification]
#[verifier::external_body]
pub struct ExFromUtf8Error(std::string::FromUtf8Error);

/// `String::from_utf8` of the standard library. It checks that the bytes are
/// valid UTF-8 and fails exactly when they are not. On success the string is
/// made of the very bytes that were handed in.
pub assume_specification[ std::string::String::from_utf8 ](vec: Vec<u8>) -> (text: Result<
    String,
    std::string::FromUtf8Error,
>)
    ensures
        text is Ok <==> valid_utf8(vec@),
        text matches Ok(decoded) ==> encode_utf8(decoded@) == vec@,
;

/// The conversion of a value into its own type, `From<X> for X` of the
/// standard library. It returns its argument unchanged.
pub assume_specification<X>[ <X as std::convert::From<X>>::from ](x: X) -> (same: X)
    ensures
        same == x,
;

} // verus!
