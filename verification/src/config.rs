//! Session configuration shared between the interactive side and the worker:
//! the service credential, the ordered replace rules, and the clipboard mode,
//! together with the per-task snapshot that insulates a task from concurrent
//! edits of the configuration.

use vstd::prelude::*;

verus! {

/// Policy governing what, if anything, is written to the system clipboard
/// when a task completes.
#[derive(Clone, Copy, Debug, PartialEq, Eq, Structural)]
pub enum ClipboardMode {
    /// No immediate clipboard write; converted text accumulates in a
    /// UI-owned buffer when the result is merged.
    Continuous,
    /// Overwrite the clipboard with the raw transcribed text.
    CopyTeX,
    /// Overwrite the clipboard with the rule-transformed converted text.
    CopyTypst,
}

/// Which panel the interactive side currently shows.
#[derive(Clone, Copy, Debug, PartialEq, Eq, Structural)]
pub enum MainView {
    Snips,
    ContinuousClipboard,
    ReplaceRules,
    Settings,
}

impl Default for MainView {
    fn default() -> (r: Self)
        ensures
            r == MainView::Snips,
    {
        MainView::Snips
    }
}

/// One literal find/replace rule; rules apply in list order, each operating
/// on the output of the previous one.
pub struct ReplaceRule {
    pub pattern: String,
    pub replacement: String,
}

/// Mathematical model of a replace rule: its pattern and replacement as
/// character sequences.
pub ghost struct RuleModel {
    pub pattern: Seq<char>,
    pub replacement: Seq<char>,
}

impl View for ReplaceRule {
    type V = RuleModel;

    open spec fn view(&self) -> RuleModel {
        RuleModel { pattern: self.pattern@, replacement: self.replacement@ }
    }
}

/// The models of a list of rules, in list order.
pub open spec fn rules_model(rules: Seq<ReplaceRule>) -> Seq<RuleModel> {
    rules.map_values(|r: ReplaceRule| r@)
}

/// The fields of the shared configuration that one task needs, copied once
/// when the task begins processing and passed by value through the rest of
/// the pipeline, so that later steps are insulated from concurrent edits.
pub struct ConfigSnapshot {
    pub mathpix_api_key: String,
    pub replace_rules: Vec<ReplaceRule>,
    pub clipboard_mode: ClipboardMode,
}

pub(crate) fn clone_rules(rules: &Vec<ReplaceRule>) -> (r: Vec<ReplaceRule>)
    ensures
        rules_model(r@) == rules_model(rules@),
{
    let mut out: Vec<ReplaceRule> = Vec::new();
    let mut i: usize = 0;
    while i < rules.len()
        invariant
            i <= rules.len(),
            out@.len() == i,
            forall|k: int| 0 <= k < i ==> #[trigger] out@[k]@ == rules@[k]@,
        decreases rules.len() - i,
    {
        let rule = ReplaceRule {
            pattern: rules[i].pattern.clone(),
            replacement: rules[i].replacement.clone(),
        };
        out.push(rule);
        i += 1;
    }
    proof {
        assert(rules_model(out@) =~= rules_model(rules@));
    }
    out
}

} // verus!
