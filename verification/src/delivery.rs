//! The delivery policy: given the clipboard mode in effect when a task's
//! result is produced, decide what, if anything, is written to the system
//! clipboard.  Exactly one clipboard write (or zero, in `Continuous` mode)
//! is owed per completed task; the write itself is a side effect performed
//! outside this library.

use vstd::prelude::*;

use crate::config::ClipboardMode;

verus! {

/// The clipboard side effect owed for one completed task.
pub enum DeliveryAction {
    /// No immediate write; in `Continuous` mode the converted text instead
    /// accumulates in a UI-owned buffer when the result is merged.
    NoWrite,
    /// Overwrite the system clipboard with the carried text.
    Write(String),
}

/// The text an action writes, if any.
pub open spec fn action_view(a: DeliveryAction) -> Option<Seq<char>> {
    match a {
        DeliveryAction::NoWrite => None,
        DeliveryAction::Write(s) => Some(s@),
    }
}

/// What the clipboard is owed per mode: nothing in `Continuous`, the raw
/// transcribed text in `CopyTeX`, the rule-transformed converted text in
/// `CopyTypst`.
pub open spec fn delivery_model(mode: ClipboardMode, tex: Seq<char>, typst: Seq<char>) -> Option<
    Seq<char>,
> {
    match mode {
        ClipboardMode::Continuous => None,
        ClipboardMode::CopyTeX => Some(tex),
        ClipboardMode::CopyTypst => Some(typst),
    }
}

/// Decides the clipboard side effect for one completed task from the mode
/// snapshot in effect at the moment the result is produced.
pub fn decide_delivery(mode: ClipboardMode, tex: &String, typst: &String) -> (a: DeliveryAction)
    ensures
        action_view(a) == delivery_model(mode, tex@, typst@),
{
    match mode {
        ClipboardMode::Continuous => DeliveryAction::NoWrite,
        ClipboardMode::CopyTeX => DeliveryAction::Write(tex.clone()),
        ClipboardMode::CopyTypst => DeliveryAction::Write(typst.clone()),
    }
}

} // verus!
