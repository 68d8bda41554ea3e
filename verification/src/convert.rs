//! Handling of the markup converter's outcome.  The converter itself — a
//! pure collaborator rewriting TeX-notation text into Typst notation — is
//! invoked at the application boundary, which hands its outcome in as a
//! plain value: the converted text, or nothing where the conversion did
//! not yield one.  A missing conversion never aborts the task: the empty
//! string is substituted and the task still completes (degrade
//! gracefully, never abort).

use vstd::prelude::*;

verus! {

/// The converter's outcome as a mathematical value: the converted text,
/// or nothing.
pub open spec fn conversion_view(conversion: Option<String>) -> Option<Seq<char>> {
    match conversion {
        Some(t) => Some(t@),
        None => None,
    }
}

/// The converted text a task carries on: the converter's output where it
/// returned one, the empty string where it did not.
pub open spec fn converted_text_spec(conversion: Option<Seq<char>>) -> Seq<char> {
    match conversion {
        Some(t) => t,
        None => Seq::empty(),
    }
}

/// Resolves a conversion outcome to the text the task carries on.  A
/// failed conversion never aborts the task: the empty string is
/// substituted and the task still completes.
pub fn convert_or_empty(conversion: Option<String>) -> (r: String)
    ensures
        r@ == converted_text_spec(conversion_view(conversion)),
{
    match conversion {
        Some(t) => t,
        None => String::new(),
    }
}

} // verus!
