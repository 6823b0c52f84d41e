//! The short identifier type `Chid`: at most 50 bytes of text, with `.` and
//! space forbidden anywhere, so a value can stand in path segments and other
//! delimited contexts without escaping.

use core::cmp::Ordering;
use vstd::prelude::*;
use vstd::std_specs::cmp::{PartialEqSpec, PartialOrdSpec};

use crate::buffer::{ident_buf_as_str, ident_buf_chars, ident_buf_from};
use crate::text::{
    decimal_chars, lemma_lex_cmp_equal_iff, lex_cmp_chars, push_char, push_decimal,
    str_lex_cmp, utf8_len,
};

verus! {

/// Maximum byte length of an identifier's text.
pub const CHID_CAPACITY: usize = 50;

/// A character that may not occur in an identifier.
pub open spec fn is_forbidden_char(c: char) -> bool {
    c == '.' || c == ' '
}

/// Index of the first forbidden character of `s`, or `s.len()` when `s`
/// holds none.
pub open spec fn first_forbidden_idx(s: Seq<char>) -> int
    decreases s.len(),
{
    if s.len() == 0 {
        0
    } else if is_forbidden_char(s[0]) {
        0
    } else {
        1 + first_forbidden_idx(s.drop_first())
    }
}

/// `s` holds no forbidden character at all.
pub open spec fn has_no_forbidden_char(s: Seq<char>) -> bool {
    forall|i: int| 0 <= i < s.len() ==> !is_forbidden_char(s[i])
}

/// The texts accepted as identifiers: at most 50 bytes once encoded, and
/// free of forbidden characters.
pub open spec fn chid_text_valid(s: Seq<char>) -> bool {
    utf8_len(s) <= CHID_CAPACITY && has_no_forbidden_char(s)
}

/// `first_forbidden_idx` points at the first forbidden character: everything
/// before it is allowed, and it is in range exactly when one exists.
pub proof fn lemma_first_forbidden_idx(s: Seq<char>)
    ensures
        0 <= first_forbidden_idx(s) <= s.len(),
        first_forbidden_idx(s) < s.len() ==> is_forbidden_char(s[first_forbidden_idx(s)]),
        forall|j: int| 0 <= j < first_forbidden_idx(s) ==> !is_forbidden_char(s[j]),
        first_forbidden_idx(s) == s.len() <==> has_no_forbidden_char(s),
    decreases s.len(),
{
    if s.len() == 0 {
    } else if is_forbidden_char(s[0]) {
    } else {
        lemma_first_forbidden_idx(s.drop_first());
        assert forall|j: int| 0 <= j < first_forbidden_idx(s) implies !is_forbidden_char(
            s[j],
        ) by {
            if j > 0 {
                assert(s.drop_first()[j - 1] == s[j]);
            }
        }
        if first_forbidden_idx(s) < s.len() {
            assert(s.drop_first()[first_forbidden_idx(s.drop_first())]
                == s[first_forbidden_idx(s)]);
        }
        if has_no_forbidden_char(s) {
            assert forall|i: int| 0 <= i < s.drop_first().len() implies !is_forbidden_char(
                s.drop_first()[i],
            ) by {
                assert(s.drop_first()[i] == s[i + 1]);
            }
        }
    }
}

/// Law: the reported position of a forbidden character is the unique one
/// that carries a forbidden character preceded only by allowed ones.
pub proof fn lemma_first_forbidden_idx_unique(s: Seq<char>, i: int)
    requires
        0 <= i < s.len(),
        is_forbidden_char(s[i]),
        forall|j: int| 0 <= j < i ==> !is_forbidden_char(s[j]),
    ensures
        first_forbidden_idx(s) == i,
{
    lemma_first_forbidden_idx(s);
    let f = first_forbidden_idx(s);
    if f < i {
        assert(!is_forbidden_char(s[f]));
    }
    if f > i {
        assert(!is_forbidden_char(s[i]));
    }
}

/// Why a text was rejected as an identifier.
#[derive(Copy, Clone, Debug, PartialEq, Eq, Structural, Hash, PartialOrd, Ord)]
pub enum ParseChidError {
    /// A forbidden character, with its zero-based character position (not
    /// byte offset) and the character itself.
    InvalidChar { position: usize, character: char },
    /// The text's byte length exceeds the capacity.
    TooLong,
}

impl ParseChidError {
    /// The human-readable rendering of this error.
    pub open spec fn display_chars(self) -> Seq<char> {
        match self {
            ParseChidError::InvalidChar { position, character } => "Invalid character "@ + seq![
                character,
            ] + " at position "@ + decimal_chars(position as nat),
            ParseChidError::TooLong => "CHID too long"@,
        }
    }

    /// Renders this error as its fixed human-readable message.
    pub fn to_display_text(&self) -> (r: String)
        ensures
            r@ == self.display_chars(),
    {
        match *self {
            ParseChidError::InvalidChar { position, character } => {
                let mut out: String = "Invalid character ".to_owned();
                push_char(&mut out, character);
                out.append(" at position ");
                push_decimal(&mut out, position);
                out
            },
            ParseChidError::TooLong => "CHID too long".to_owned(),
        }
    }
}

/// A short identifier: at most 50 bytes of text with no `.` and no space,
/// stored inline in a fixed-capacity buffer.
#[derive(Copy, Clone, Debug, Eq, Hash, Ord)]
pub struct Chid {
    buf: arrayvec::ArrayString<50>,
}

impl View for Chid {
    type V = Seq<char>;

    closed spec fn view(&self) -> Seq<char> {
        ident_buf_chars(self.buf)
    }
}

impl Chid {
    /// Every identifier value holds a valid identifier text.
    #[verifier::type_invariant]
    pub open spec fn wf(self) -> bool {
        chid_text_valid(self@)
    }

    /// Validates `text` as an identifier.
    ///
    /// Fails with `TooLong` when the text exceeds 50 bytes, else with
    /// `InvalidChar` naming the first forbidden character and its position,
    /// and otherwise returns the identifier holding exactly `text`.
    pub fn parse(text: &str) -> (r: Result<Chid, ParseChidError>)
        ensures
            r is Ok <==> chid_text_valid(text@),
            (r matches Ok(c) ==> c@ == text@),
            (r == Err::<Chid, ParseChidError>(ParseChidError::TooLong) <==> utf8_len(text@)
                > CHID_CAPACITY),
            (utf8_len(text@) <= CHID_CAPACITY && !has_no_forbidden_char(text@) ==> r
                == Err::<Chid, ParseChidError>(
                ParseChidError::InvalidChar {
                    position: first_forbidden_idx(text@) as usize,
                    character: text@[first_forbidden_idx(text@)],
                },
            )),
    {
        let buf = match ident_buf_from(text) {
            Some(b) => b,
            None => {
                return Err(ParseChidError::TooLong);
            },
        };
        match find_forbidden(text) {
            Some((position, character)) => Err(
                ParseChidError::InvalidChar { position, character },
            ),
            None => {
                proof {
                    lemma_first_forbidden_idx(text@);
                }
                Ok(Chid { buf })
            },
        }
    }

    /// The stored text, verbatim and without allocation.
    pub fn as_str(&self) -> (r: &str)
        ensures
            r@ == self@,
            chid_text_valid(r@),
    {
        proof {
            use_type_invariant(self);
        }
        ident_buf_as_str(&self.buf)
    }

    /// The stored text as an owned string; identical to `as_str`.
    pub fn to_display_text(&self) -> (r: String)
        ensures
            r@ == self@,
    {
        self.as_str().to_owned()
    }
}

impl core::str::FromStr for Chid {
    type Err = ParseChidError;

    fn from_str(s: &str) -> Result<Chid, ParseChidError> {
        Chid::parse(s)
    }
}

impl PartialEq for Chid {
    fn eq(&self, other: &Chid) -> (r: bool) {
        let ord = str_lex_cmp(self.as_str(), other.as_str());
        proof {
            lemma_lex_cmp_equal_iff(self@, other@);
        }
        match ord {
            Ordering::Equal => true,
            _ => false,
        }
    }
}

impl vstd::std_specs::cmp::PartialEqSpecImpl for Chid {
    open spec fn obeys_eq_spec() -> bool {
        true
    }

    open spec fn eq_spec(&self, other: &Chid) -> bool {
        self@ == other@
    }
}

impl PartialOrd for Chid {
    fn partial_cmp(&self, other: &Chid) -> (r: Option<Ordering>) {
        Some(str_lex_cmp(self.as_str(), other.as_str()))
    }
}

impl vstd::std_specs::cmp::PartialOrdSpecImpl for Chid {
    open spec fn obeys_partial_cmp_spec() -> bool {
        true
    }

    open spec fn partial_cmp_spec(&self, other: &Chid) -> Option<Ordering> {
        Some(lex_cmp_chars(self@, other@))
    }
}

/// Law: two identifiers are equal exactly when their texts are equal, and
/// one orders below another exactly when its text is lexicographically less.
pub proof fn lemma_chid_cmp_consistency(a: Chid, b: Chid)
    ensures
        a.eq_spec(&b) <==> a@ == b@,
        a.partial_cmp_spec(&b) == Some(lex_cmp_chars(a@, b@)),
        a.partial_cmp_spec(&b) == Some(Ordering::Equal) <==> a@ == b@,
        a.partial_cmp_spec(&b) == Some(Ordering::Less) <==> lex_cmp_chars(a@, b@)
            == Ordering::Less,
{
    lemma_lex_cmp_equal_iff(a@, b@);
}

/// Law: a well-formed identifier holds a text that `parse` accepts, so the
/// text read back from a value always re-parses to an equal value.
pub proof fn lemma_chid_text_reparses(c: Chid)
    requires
        c.wf(),
    ensures
        chid_text_valid(c@),
{
}

/// Scans `s` left to right for the first forbidden character, returning its
/// zero-based character position and the character found.
fn find_forbidden(s: &str) -> (r: Option<(usize, char)>)
    ensures
        match r {
            Some(p) => {
                &&& p.0 < s@.len()
                &&& p.0 as int == first_forbidden_idx(s@)
                &&& p.1 == s@[p.0 as int]
                &&& is_forbidden_char(p.1)
            },
            None => has_no_forbidden_char(s@),
        },
{
    let n = s.unicode_len();
    let mut i: usize = 0;
    while i < n
        invariant
            n == s@.len(),
            i <= n,
            forall|j: int| 0 <= j < i ==> !is_forbidden_char(s@[j]),
        decreases n - i,
    {
        let c = s.get_char(i);
        if c == '.' || c == ' ' {
            proof {
                lemma_first_forbidden_idx_unique(s@, i as int);
            }
            return Some((i, c));
        }
        i += 1;
    }
    None
}

} // verus!
