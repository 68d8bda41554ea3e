//! Accounting over a whole sequence of triggered captures.  Tasks flow
//! strictly first-in first-out through a single worker, each meeting
//! exactly one fate: the user cancels the capture, the transcription
//! fails, or the task completes and emits exactly one result.

use vstd::prelude::*;

use crate::task::WorkerInput;

verus! {

/// The fate of one dequeued task.
pub ghost enum TaskFate {
    /// The user aborted the interactive capture; a normal outcome, with
    /// zero emitted results.
    Cancelled,
    /// The transcription failed (transport or parse); zero emitted
    /// results.
    Failed,
    /// The task completed and emitted exactly one result.
    Completed,
}

/// The fate a worker input decides: a result is emitted if and only if an
/// image was captured and the service answered well-formed.
pub open spec fn fate_of(input: WorkerInput) -> TaskFate {
    match input {
        WorkerInput::CaptureCancelled => TaskFate::Cancelled,
        WorkerInput::Captured { path: _, transcription } => match transcription {
            Ok(_) => TaskFate::Completed,
            Err(_) => TaskFate::Failed,
        },
    }
}

/// How many tasks of a sequence completed, each emitting exactly one
/// result.
pub open spec fn completed_count(fates: Seq<TaskFate>) -> nat
    decreases fates.len(),
{
    if fates.len() == 0 {
        0
    } else {
        (if fates[0] is Completed {
            1nat
        } else {
            0nat
        }) + completed_count(fates.skip(1))
    }
}

/// How many tasks of a sequence the user cancelled.
pub open spec fn cancelled_count(fates: Seq<TaskFate>) -> nat
    decreases fates.len(),
{
    if fates.len() == 0 {
        0
    } else {
        (if fates[0] is Cancelled {
            1nat
        } else {
            0nat
        }) + cancelled_count(fates.skip(1))
    }
}

/// How many tasks of a sequence failed in transcription.
pub open spec fn failed_count(fates: Seq<TaskFate>) -> nat
    decreases fates.len(),
{
    if fates.len() == 0 {
        0
    } else {
        (if fates[0] is Failed {
            1nat
        } else {
            0nat
        }) + failed_count(fates.skip(1))
    }
}

/// Every dequeued task meets exactly one fate, so over any sequence of N
/// triggered captures the emitted results, the cancellations and the
/// transcription failures partition the N tasks.
pub proof fn lemma_fates_partition(fates: Seq<TaskFate>)
    ensures
        completed_count(fates) + cancelled_count(fates) + failed_count(fates) == fates.len(),
    decreases fates.len(),
{
    if fates.len() > 0 {
        lemma_fates_partition(fates.skip(1));
    }
}

/// For any sequence of N triggered captures none of which fails in
/// transcription, the number of task results emitted equals N minus the
/// number of user-cancelled captures — and never more than one result per
/// task.
pub proof fn lemma_emitted_results(fates: Seq<TaskFate>)
    requires
        failed_count(fates) == 0,
    ensures
        completed_count(fates) == fates.len() - cancelled_count(fates),
{
    lemma_fates_partition(fates);
}

} // verus!
