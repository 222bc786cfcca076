//! Self-addressing identifiers (SAIDs) given as request parameters.

use vstd::prelude::*;

verus! {

#[verifier::external_type_specification]
#[verifier::external_body]
pub struct ExSaid(said::SelfAddressingIdentifier);

/// Why `said::SelfAddressingIdentifier::from_str` refuses the text (the
/// error's `Display`), or `None` when it accepts it.
pub uninterp spec fn said_parse_failure(text: Seq<char>) -> Option<Seq<char>>;

/// Texts on which the SAID parser slices out of bounds: a leading `0` (the
/// first character of a two-character code) with no second character, or
/// with a second character that is not ASCII.
pub open spec fn said_code_cut(text: Seq<char>) -> bool {
    text.len() >= 1 && text[0] == '0' && (text.len() == 1 || text[1] as u32 >= 128)
}

/// Calls `SelfAddressingIdentifier::from_str` and renders a refusal with its
/// `Display`. Trusted: it succeeds exactly when the named failure is `None`,
/// and a refusal carries the named message. Which identifier comes back on
/// success is not stated. The parser takes `&s[1..2]` after a leading `0`,
/// which panics on the texts that `said_code_cut` describes; those are left
/// out.
#[verifier::external_body]
fn said_from_str(text: &str) -> (res: Result<said::SelfAddressingIdentifier, String>)
    requires
        !said_code_cut(text@),
    ensures
        res is Ok <==> said_parse_failure(text@) is None,
        res matches Err(m) ==> said_parse_failure(text@) == Some(m@),
{
    match text.parse::<said::SelfAddressingIdentifier>() {
        Ok(said) => Ok(said),
        Err(e) => Err(e.to_string()),
    }
}

/// The message for a text with a leading `0` and no known second code
/// character, which is the parser's message for an unknown code.
pub open spec fn unknown_code_message() -> Seq<char> {
    "Unknown code"@
}

/// Why a text is no SAID, or `None` when it is one.
pub open spec fn said_failure_reason(text: Seq<char>) -> Option<Seq<char>> {
    if said_code_cut(text) {
        Some(unknown_code_message())
    } else {
        said_parse_failure(text)
    }
}

/// Whether the text is a SAID.
pub open spec fn said_text_valid(text: Seq<char>) -> bool {
    said_failure_reason(text) is None
}

fn code_is_cut(text: &str) -> (cut: bool)
    ensures
        cut == said_code_cut(text@),
{
    let n = text.unicode_len();
    if n == 0 || text.get_char(0) != '0' {
        false
    } else if n == 1 {
        true
    } else {
        (text.get_char(1) as u32) >= 128
    }
}

/// Parses a SAID; a refusal carries the reason.
fn said_from_text(text: &str) -> (res: Result<said::SelfAddressingIdentifier, String>)
    ensures
        res is Ok <==> said_text_valid(text@),
        res matches Err(m) ==> said_failure_reason(text@) == Some(m@),
{
    if code_is_cut(text) {
        Err(String::from_str("Unknown code"))
    } else {
        said_from_str(text)
    }
}

/// Why the text is no SAID, or `None` when it is one.
pub fn said_failure(text: &str) -> (reason: Option<String>)
    ensures
        match reason {
            Some(r) => said_failure_reason(text@) == Some(r@),
            None => said_failure_reason(text@) is None,
        },
{
    match said_from_text(text) {
        Ok(_) => None,
        Err(reason) => Some(reason),
    }
}

/// The SAID parser alone decides every text but those it cannot slice: a
/// text that does not start with `0`, or whose `0` is followed by an ASCII
/// character, is a SAID exactly when the parser accepts it, and is refused
/// for the parser's reason; the rest are refused as unknown codes.
pub proof fn lemma_parser_decides_all_but_cut_codes(text: Seq<char>)
    ensures
        text.len() == 0 || text[0] != '0' || (text.len() >= 2 && (text[1] as u32) < 128)
            ==> said_failure_reason(text) == said_parse_failure(text),
        text.len() >= 1 && text[0] == '0' && (text.len() == 1 || text[1] as u32 >= 128)
            ==> said_failure_reason(text) == Some(unknown_code_message()),
{
}

/// The message with which a SAID parameter is refused.
pub open spec fn invalid_said_message(reason: Seq<char>) -> Seq<char> {
    "Invalid SAID: "@ + reason
}

/// Parses the SAID in a request path; a refusal carries the message that the
/// reply shows.
pub fn parse_said(text: &str) -> (res: Result<said::SelfAddressingIdentifier, String>)
    ensures
        res is Ok <==> said_text_valid(text@),
        res matches Err(m) ==> m@ == invalid_said_message(said_failure_reason(text@)->0),
        text@.len() == 0 || text@[0] != '0' || (text@.len() >= 2 && (text@[1] as u32) < 128)
            ==> (res is Ok <==> said_parse_failure(text@) is None),
        text@.len() >= 1 && text@[0] == '0' && (text@.len() == 1 || text@[1] as u32 >= 128)
            ==> (res matches Err(m) && m@ == invalid_said_message(unknown_code_message())),
{
    proof {
        lemma_parser_decides_all_but_cut_codes(text@);
    }
    match said_from_text(text) {
        Ok(said) => Ok(said),
        Err(reason) => {
            let message = String::from_str("Invalid SAID: ");
            let message = message.concat(reason.as_str());
            Err(message)
        },
    }
}

} // verus!
