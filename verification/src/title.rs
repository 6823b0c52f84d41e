//! The display label type `Title`: free-form text bounded to 256 bytes, with
//! no character restriction, meant to accompany an identifier as a
//! human-readable label.

use core::cmp::Ordering;
use vstd::prelude::*;
use vstd::std_specs::cmp::{PartialEqSpec, PartialOrdSpec};

use crate::buffer::{title_buf_as_str, title_buf_chars, title_buf_from};
use crate::text::{lemma_lex_cmp_equal_iff, lex_cmp_chars, str_lex_cmp, utf8_len};

verus! {

/// Maximum byte length of a title's text.
pub const TITLE_CAPACITY: usize = 256;

/// The texts accepted as titles: at most 256 bytes once encoded.
pub open spec fn title_text_valid(s: Seq<char>) -> bool {
    utf8_len(s) <= TITLE_CAPACITY
}

/// Why a text was rejected as a title.
#[derive(Copy, Clone, Debug, PartialEq, Eq, Structural, Hash, PartialOrd, Ord)]
pub enum ParseTitleError {
    /// The text's byte length exceeds the capacity.
    TooLong,
}

impl ParseTitleError {
    /// The human-readable rendering of this error.
    pub open spec fn display_chars(self) -> Seq<char> {
        "Title too long"@
    }

    /// Renders this error as its fixed human-readable message.
    pub fn to_display_text(&self) -> (r: String)
        ensures
            r@ == self.display_chars(),
    {
        "Title too long".to_owned()
    }
}

/// A display label: at most 256 bytes of arbitrary text, stored inline in a
/// fixed-capacity buffer.
#[derive(Copy, Clone, Debug, Eq, Hash, Ord)]
pub struct Title {
    buf: arrayvec::ArrayString<256>,
}

impl View for Title {
    type V = Seq<char>;

    closed spec fn view(&self) -> Seq<char> {
        title_buf_chars(self.buf)
    }
}

impl Title {
    /// Every title value holds a valid title text.
    #[verifier::type_invariant]
    pub open spec fn wf(self) -> bool {
        title_text_valid(self@)
    }

    /// Validates `text` as a title.
    ///
    /// Fails with `TooLong` when the text exceeds 256 bytes, and otherwise
    /// returns the title holding exactly `text`.
    pub fn parse(text: &str) -> (r: Result<Title, ParseTitleError>)
        ensures
            r is Ok <==> title_text_valid(text@),
            (r matches Ok(t) ==> t@ == text@),
            (r is Err ==> r == Err::<Title, ParseTitleError>(ParseTitleError::TooLong)
                && utf8_len(text@) > TITLE_CAPACITY),
    {
        match title_buf_from(text) {
            Some(buf) => Ok(Title { buf }),
            None => Err(ParseTitleError::TooLong),
        }
    }

    /// The stored text, verbatim and without allocation.
    pub fn as_str(&self) -> (r: &str)
        ensures
            r@ == self@,
            title_text_valid(r@),
    {
        proof {
            use_type_invariant(self);
        }
        title_buf_as_str(&self.buf)
    }

    /// The stored text as an owned string; identical to `as_str`.
    pub fn to_display_text(&self) -> (r: String)
        ensures
            r@ == self@,
    {
        self.as_str().to_owned()
    }
}

impl core::str::FromStr for Title {
    type Err = ParseTitleError;

    fn from_str(s: &str) -> Result<Title, ParseTitleError> {
        Title::parse(s)
    }
}

impl PartialEq for Title {
    fn eq(&self, other: &Title) -> (r: bool) {
        let ord = str_lex_cmp(self.as_str(), other.as_str());
        proof {
            lemma_lex_cmp_equal_iff(self@, other@);
        }
        match ord {
            Ordering::Equal => true,
            _ => false,
        }
    }
}

impl vstd::std_specs::cmp::PartialEqSpecImpl for Title {
    open spec fn obeys_eq_spec() -> bool {
        true
    }

    open spec fn eq_spec(&self, other: &Title) -> bool {
        self@ == other@
    }
}

impl PartialOrd for Title {
    fn partial_cmp(&self, other: &Title) -> (r: Option<Ordering>) {
        Some(str_lex_cmp(self.as_str(), other.as_str()))
    }
}

impl vstd::std_specs::cmp::PartialOrdSpecImpl for Title {
    open spec fn obeys_partial_cmp_spec() -> bool {
        true
    }

    open spec fn partial_cmp_spec(&self, other: &Title) -> Option<Ordering> {
        Some(lex_cmp_chars(self@, other@))
    }
}

/// Law: two titles are equal exactly when their texts are equal, and one
/// orders below another exactly when its text is lexicographically less.
pub proof fn lemma_title_cmp_consistency(a: Title, b: Title)
    ensures
        a.eq_spec(&b) <==> a@ == b@,
        a.partial_cmp_spec(&b) == Some(lex_cmp_chars(a@, b@)),
        a.partial_cmp_spec(&b) == Some(Ordering::Equal) <==> a@ == b@,
        a.partial_cmp_spec(&b) == Some(Ordering::Less) <==> lex_cmp_chars(a@, b@)
            == Ordering::Less,
{
    lemma_lex_cmp_equal_iff(a@, b@);
}

/// Law: a well-formed title holds a text that `parse` accepts, so the text
/// read back from a value always re-parses to an equal value.
pub proof fn lemma_title_text_reparses(t: Title)
    requires
        t.wf(),
    ensures
        title_text_valid(t@),
{
}

} // verus!
