//! Fixed-capacity string value types: a short identifier (`Chid`) that
//! excludes `.` and space, and a free-form display label (`Title`).
//!
//! Both types store their text inline in a bounded buffer, are copyable,
//! totally ordered, and round-trip exactly through their text form.

mod buffer;
mod ident;
mod text;
mod title;

pub use ident::{
    chid_text_valid, first_forbidden_idx, has_no_forbidden_char, is_forbidden_char,
    lemma_chid_cmp_consistency, lemma_chid_text_reparses, lemma_first_forbidden_idx,
    lemma_first_forbidden_idx_unique, Chid, ParseChidError,
    CHID_CAPACITY,
};
pub use text::{
    decimal_chars, lemma_lex_cmp_equal_iff, lemma_lex_cmp_flip, lemma_lex_cmp_skip,
    lemma_lex_cmp_transitive, lex_cmp_chars, push_decimal,
    str_lex_cmp, utf8_len,
};
pub use title::{
    lemma_title_cmp_consistency, lemma_title_text_reparses, title_text_valid, ParseTitleError,
    Title, TITLE_CAPACITY,
};
