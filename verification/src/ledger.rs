//! The text of a microledger.

use vstd::prelude::*;

verus! {

/// The message when there is no ledger to render.
pub open spec fn missing_ledger_message() -> Seq<char> {
    "Miising ledger"@
}

/// The text of a ledger, given its serialization when there is a ledger:
/// the serialization itself, else the missing-ledger error.
pub fn ledger_text(serialized: Option<String>) -> (res: Result<String, String>)
    ensures
        serialized matches Some(s) ==> (res matches Ok(t) && t@ == s@),
        serialized is None ==> (res matches Err(m) && m@ == missing_ledger_message()),
{
    match serialized {
        Some(s) => Ok(s),
        None => Err(String::from_str("Miising ledger")),
    }
}

} // verus!
