//! Trusted bridge to `arrayvec::ArrayString`, the fixed-capacity inline
//! string buffer that both value types store their text in.
//!
//! The buffer is opaque to the verifier; `ident_buf_chars` and
//! `title_buf_chars` name the character sequence each buffer holds, and the
//! wrappers below state how `arrayvec`'s methods relate to those names.

use vstd::prelude::*;
use vstd::string::StringSliceAdditionalSpecFns;

verus! {

#[verifier::external_type_specification]
#[verifier::external_body]
pub struct ExArrayString<const CAP: usize>(arrayvec::ArrayString<CAP>);

/// The characters held by an identifier-capacity buffer.
pub uninterp spec fn ident_buf_chars(a: arrayvec::ArrayString<50>) -> Seq<char>;

/// The characters held by a title-capacity buffer.
pub uninterp spec fn title_buf_chars(a: arrayvec::ArrayString<256>) -> Seq<char>;

/// Relies on `arrayvec::ArrayString::from`: copies the given text into a
/// fresh buffer, and fails exactly when the text's byte length exceeds the
/// buffer's capacity.
#[verifier::external_body]
pub(crate) fn ident_buf_from(s: &str) -> (r: Option<arrayvec::ArrayString<50>>)
    ensures
        match r {
            Some(a) => ident_buf_chars(a) == s@ && s.spec_bytes().len() <= 50,
            None => s.spec_bytes().len() > 50,
        },
{
    match arrayvec::ArrayString::from(s) {
        Ok(a) => Some(a),
        Err(_) => None,
    }
}

/// Relies on `arrayvec::ArrayString::as_str`: returns the stored text.
#[verifier::external_body]
pub(crate) fn ident_buf_as_str(a: &arrayvec::ArrayString<50>) -> (r: &str)
    ensures
        r@ == ident_buf_chars(*a),
{
    a.as_str()
}

/// Relies on `arrayvec::ArrayString::from`: copies the given text into a
/// fresh buffer, and fails exactly when the text's byte length exceeds the
/// buffer's capacity.
#[verifier::external_body]
pub(crate) fn title_buf_from(s: &str) -> (r: Option<arrayvec::ArrayString<256>>)
    ensures
        match r {
            Some(a) => title_buf_chars(a) == s@ && s.spec_bytes().len() <= 256,
            None => s.spec_bytes().len() > 256,
        },
{
    match arrayvec::ArrayString::from(s) {
        Ok(a) => Some(a),
        Err(_) => None,
    }
}

/// Relies on `arrayvec::ArrayString::as_str`: returns the stored text.
#[verifier::external_body]
pub(crate) fn title_buf_as_str(a: &arrayvec::ArrayString<256>) -> (r: &str)
    ensures
        r@ == title_buf_chars(*a),
{
    a.as_str()
}

} // verus!
