//! Languages, named by their ISO 639-3 codes.

use vstd::prelude::*;
use crate::text::{before_dash, opt_text, prefix_before_dash};

verus! {

/// The ISO 639-3 code of the language that `isolang::Language::from_str`
/// finds for the text (a 639-3 code, a 639-1 code, or an English name), if any.
pub uninterp spec fn iso_language_code(text: Seq<char>) -> Option<Seq<char>>;

/// Calls `isolang::Language::from_str` and renders the language with
/// `to_639_3`. Trusted: the result is the named code, and a code has three
/// characters, as every entry of isolang's 639-3 table does.
#[verifier::external_body]
fn language_code(text: &str) -> (code: Option<String>)
    ensures
        opt_text(code) == iso_language_code(text@),
        code matches Some(c) ==> c@.len() == 3,
{
    match text.parse::<isolang::Language>() {
        Ok(language) => Some(language.to_639_3().to_string()),
        Err(_) => None,
    }
}

/// The language of a language tag such as `en-US`: the one its primary
/// subtag (the part before the first `-`) names.
pub fn language_of_tag(tag: &str) -> (code: Option<String>)
    ensures
        opt_text(code) == iso_language_code(before_dash(tag@)),
{
    let primary = prefix_before_dash(tag);
    language_code(primary.as_str())
}

} // verus!
