//! Text as it travels in a message: UTF-8.

use vstd::prelude::*;
use vstd::utf8::{encode_utf8, valid_utf8};

verus! {

/// The error of `core::str::from_utf8`, carried through unread.
#[verifier::external_type_specification]
#[verifier::external_body]
pub struct ExUtf8Error(core::str::Utf8Error);

/// `core::str::from_utf8` turns bytes into a string slice without copying
/// them.
///
/// Assumed of it: it succeeds exactly on the byte strings that are valid
/// UTF-8, and the string slice it then returns has the given bytes as its
/// encoding.
pub assume_specification[ core::str::from_utf8 ](v: &[u8]) -> (result: Result<
    &str,
    core::str::Utf8Error,
>)
    ensures
        result is Ok <==> valid_utf8(v@),
        result matches Ok(text) ==> encode_utf8(text@) == v@,
;

} // verus!
