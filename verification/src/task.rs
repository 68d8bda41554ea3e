//! Per-task processing on the worker side: given what the outside world
//! handed back for one dequeued capture task — a cancelled capture, or an
//! image and the transcription service's answer — produce at most one task
//! result and the clipboard side effect owed for it.
//!
//! Every enqueued task yields at most one result; cancellation or a
//! service/parse error yields zero results for that task, with no partial
//! and no duplicate results.

use vstd::prelude::*;

use crate::config::ConfigSnapshot;
use crate::config::rules_model;
use crate::convert::conversion_view;
use crate::convert::convert_or_empty;
use crate::convert::converted_text_spec;
use crate::delivery::DeliveryAction;
use crate::delivery::action_view;
use crate::delivery::decide_delivery;
use crate::delivery::delivery_model;
use crate::text::apply_rules;
use crate::text::apply_rules_spec;

verus! {

/// A capture request, created at enqueue time and immutable afterwards;
/// consumed exactly once by the worker, or silently dropped when the
/// capture is cancelled.
pub struct SnipTask {
    pub id: u128,
}

/// Relies on `uuid::Uuid::new_v4` (read through `Uuid::as_u128`): a
/// freshly generated random identifier.  Nothing is promised of its value.
#[verifier::external_body]
fn fresh_task_id() -> u128 {
    uuid::Uuid::new_v4().as_u128()
}

impl SnipTask {
    /// Creates a capture task with a fresh random identifier.  Nothing is
    /// promised of the identifier's value.
    pub fn new() -> SnipTask {
        SnipTask { id: fresh_task_id() }
    }
}

/// Why a task terminated with zero results.
#[derive(Clone, Copy, Debug, PartialEq, Eq, Structural)]
pub enum TranscriptionError {
    /// Transport failure or a non-2xx status from the service.
    Network,
    /// A response body that fails to parse against the expected schema.
    Malformed,
}

/// The fields of the transcription service's response that the pipeline
/// reads, as plain values.  Usage counters are advisory and
/// service-reported; the pipeline propagates them verbatim and never
/// computes them locally.
pub struct MathpixResult {
    pub text: String,
    pub latex: Option<String>,
    pub title: String,
    pub original_image_url: String,
    pub rendered_image_url: String,
    pub snip_count: u64,
    pub snip_limit: u64,
}

/// A completed task's outcome, produced exactly once per non-dropped task
/// and consumed exactly once by the session merger.
pub struct TaskResult {
    pub id: u128,
    pub local_image: String,
    pub original_image: String,
    pub rendered_image: String,
    pub text: String,
    pub latex: Option<String>,
    pub typst: String,
    pub title: String,
    pub snip_count: u64,
    pub snip_limit: u64,
}

/// Mathematical model of a task result.
pub ghost struct TaskResultModel {
    pub id: u128,
    pub local_image: Seq<char>,
    pub original_image: Seq<char>,
    pub rendered_image: Seq<char>,
    pub text: Seq<char>,
    pub latex: Option<Seq<char>>,
    pub typst: Seq<char>,
    pub title: Seq<char>,
    pub snip_count: u64,
    pub snip_limit: u64,
}

impl View for TaskResult {
    type V = TaskResultModel;

    open spec fn view(&self) -> TaskResultModel {
        TaskResultModel {
            id: self.id,
            local_image: self.local_image@,
            original_image: self.original_image@,
            rendered_image: self.rendered_image@,
            text: self.text@,
            latex: match self.latex {
                Some(l) => Some(l@),
                None => None,
            },
            typst: self.typst@,
            title: self.title@,
            snip_count: self.snip_count,
            snip_limit: self.snip_limit,
        }
    }
}

/// A transcription the service answered, together with the markup
/// converter's outcome for its text.  The conversion is performed at the
/// application boundary before the verified step, because the converter
/// may fail — or not return at all — on service-supplied input; either
/// way the boundary hands in no conversion, and the task degrades to an
/// empty converted text instead of being dropped.
pub struct Transcription {
    pub response: MathpixResult,
    pub conversion: Option<String>,
}

/// Everything the outside world handed back for one dequeued task: the
/// user cancelled the interactive capture, or an image was captured and
/// the transcription service answered.
pub enum WorkerInput {
    CaptureCancelled,
    Captured { path: String, transcription: Result<Transcription, TranscriptionError> },
}

/// Processes one dequeued task against the configuration snapshot taken
/// when the task began: the converter's outcome for the transcribed text
/// is resolved (a missing conversion degrades to the empty string), the
/// replace rules are applied in order to the converted text (the source
/// text is never touched by them), and the clipboard side effect is
/// decided from the mode snapshot.  A cancelled capture or a failed
/// transcription yields no result at all; a completed task yields
/// exactly one.
pub fn run_task(task_id: u128, input: WorkerInput, snapshot: &ConfigSnapshot) -> (r: Option<
    (TaskResult, DeliveryAction),
>)
    ensures
        r is Some <==> crate::pipeline::fate_of(input) is Completed,
        match input {
            WorkerInput::CaptureCancelled => r is None,
            WorkerInput::Captured { path, transcription } => match transcription {
                Err(_) => r is None,
                Ok(t) => r matches Some((res, act)) && res.id == task_id && res.local_image
                    == path && res.original_image == t.response.original_image_url
                    && res.rendered_image == t.response.rendered_image_url && res.text
                    == t.response.text && res.latex == t.response.latex && res.title
                    == t.response.title && res.snip_count == t.response.snip_count
                    && res.snip_limit == t.response.snip_limit && res.typst@ == apply_rules_spec(
                    converted_text_spec(conversion_view(t.conversion)),
                    rules_model(snapshot.replace_rules@),
                ) && action_view(act) == delivery_model(
                    snapshot.clipboard_mode,
                    t.response.text@,
                    res.typst@,
                ),
            },
        },
{
    match input {
        WorkerInput::CaptureCancelled => None,
        WorkerInput::Captured { path, transcription } => match transcription {
            Err(_) => None,
            Ok(t) => {
                let m = t.response;
                let converted = convert_or_empty(t.conversion);
                let typst = apply_rules(converted.as_str(), &snapshot.replace_rules);
                let act = decide_delivery(snapshot.clipboard_mode, &m.text, &typst);
                let res = TaskResult {
                    id: task_id,
                    local_image: path,
                    original_image: m.original_image_url,
                    rendered_image: m.rendered_image_url,
                    text: m.text,
                    latex: m.latex,
                    typst,
                    title: m.title,
                    snip_count: m.snip_count,
                    snip_limit: m.snip_limit,
                };
                Some((res, act))
            },
        },
    }
}

} // verus!
