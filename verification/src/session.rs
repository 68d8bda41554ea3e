//! The session state visible to the interactive side, and the merger that
//! folds completed task results into it.  The merger runs once per UI
//! tick, drains at most one pending result, appends a new snip item, sets
//! it as the selection, updates the displayed usage counters, and — when
//! the mode snapshot at merge time is `Continuous` — appends the converted
//! text to the accumulation buffer.

use vstd::prelude::*;

use crate::config::ClipboardMode;
use crate::config::ConfigSnapshot;
use crate::config::MainView;
use crate::config::ReplaceRule;
use crate::config::RuleModel;
use crate::config::clone_rules;
use crate::config::rules_model;
use crate::task::TaskResult;
use crate::task::TaskResultModel;

verus! {

/// A session-visible record of one completed capture, created when a task
/// result is merged and destroyed only by explicit user deletion.
pub struct SnipItem {
    pub id: u128,
    pub title: String,
    pub local_image: String,
    pub original_image: String,
    pub rendered_image: String,
    pub tex: String,
    pub typst: String,
}

/// Mathematical model of a snip item.
pub ghost struct SnipItemModel {
    pub id: u128,
    pub title: Seq<char>,
    pub local_image: Seq<char>,
    pub original_image: Seq<char>,
    pub rendered_image: Seq<char>,
    pub tex: Seq<char>,
    pub typst: Seq<char>,
}

impl View for SnipItem {
    type V = SnipItemModel;

    open spec fn view(&self) -> SnipItemModel {
        SnipItemModel {
            id: self.id,
            title: self.title@,
            local_image: self.local_image@,
            original_image: self.original_image@,
            rendered_image: self.rendered_image@,
            tex: self.tex@,
            typst: self.typst@,
        }
    }
}

/// The shared session data: configuration mutated only by the interactive
/// side and read by the worker through per-task snapshots, together with
/// the visible session state (item list, selection, usage counters,
/// accumulation buffer).
pub struct TypstScanData {
    pub mathpix_api_key: String,
    pub snip_items: Vec<SnipItem>,
    pub replace_rules: Vec<ReplaceRule>,
    pub main_view: MainView,
    pub selected_snip_item: Option<u128>,
    pub api_used: u64,
    pub api_limit: u64,
    pub hide_when_capturing: bool,
    pub bring_forward: bool,
    pub target_process_name: String,
    pub target_window_title: String,
    pub clipboard_mode: ClipboardMode,
    pub continuous_clipboard: String,
}

/// Mathematical model of the session data.
pub ghost struct SessionModel {
    pub mathpix_api_key: Seq<char>,
    pub snip_items: Seq<SnipItemModel>,
    pub replace_rules: Seq<RuleModel>,
    pub main_view: MainView,
    pub selected_snip_item: Option<u128>,
    pub api_used: u64,
    pub api_limit: u64,
    pub hide_when_capturing: bool,
    pub bring_forward: bool,
    pub target_process_name: Seq<char>,
    pub target_window_title: Seq<char>,
    pub clipboard_mode: ClipboardMode,
    pub continuous_clipboard: Seq<char>,
}

impl View for TypstScanData {
    type V = SessionModel;

    open spec fn view(&self) -> SessionModel {
        SessionModel {
            mathpix_api_key: self.mathpix_api_key@,
            snip_items: self.snip_items@.map_values(|it: SnipItem| it@),
            replace_rules: rules_model(self.replace_rules@),
            main_view: self.main_view,
            selected_snip_item: self.selected_snip_item,
            api_used: self.api_used,
            api_limit: self.api_limit,
            hide_when_capturing: self.hide_when_capturing,
            bring_forward: self.bring_forward,
            target_process_name: self.target_process_name@,
            target_window_title: self.target_window_title@,
            clipboard_mode: self.clipboard_mode,
            continuous_clipboard: self.continuous_clipboard@,
        }
    }
}

/// The snip item a merged task result gives rise to: the source text and
/// the rule-transformed converted text are carried over unchanged.
pub open spec fn snip_item_model_of(r: TaskResultModel) -> SnipItemModel {
    SnipItemModel {
        id: r.id,
        title: r.title,
        local_image: r.local_image,
        original_image: r.original_image,
        rendered_image: r.rendered_image,
        tex: r.text,
        typst: r.typst,
    }
}

/// The line separator appended after each converted-text block in the
/// accumulation buffer.
pub open spec fn newline() -> Seq<char> {
    seq!['\n']
}

/// The effect of folding one task result into the session state: a new
/// item is appended and selected, the usage counters become the result's
/// (verbatim, not an accumulation), and in `Continuous` mode the converted
/// text plus a line separator is appended to the accumulation buffer.
pub open spec fn merge_model(s: SessionModel, r: TaskResultModel) -> SessionModel {
    SessionModel {
        snip_items: s.snip_items.push(snip_item_model_of(r)),
        selected_snip_item: Some(r.id),
        api_used: r.snip_count,
        api_limit: r.snip_limit,
        continuous_clipboard: if s.clipboard_mode is Continuous {
            s.continuous_clipboard + r.typst + newline()
        } else {
            s.continuous_clipboard
        },
        ..s
    }
}

impl Default for TypstScanData {
    /// A fresh session: no items, no rules, no credential, counters at
    /// their initial values, and the converted text copied per task.
    fn default() -> (r: Self)
        ensures
            r.mathpix_api_key@ == Seq::<char>::empty(),
            r.snip_items@.len() == 0,
            r.replace_rules@.len() == 0,
            r.main_view == MainView::Snips,
            r.selected_snip_item is None,
            r.api_used == 0,
            r.api_limit == 60000,
            !r.hide_when_capturing,
            !r.bring_forward,
            r.target_process_name@ == Seq::<char>::empty(),
            r.target_window_title@ == Seq::<char>::empty(),
            r.clipboard_mode == ClipboardMode::CopyTypst,
            r.continuous_clipboard@ == Seq::<char>::empty(),
    {
        TypstScanData {
            mathpix_api_key: String::new(),
            snip_items: Vec::new(),
            replace_rules: Vec::new(),
            main_view: MainView::Snips,
            selected_snip_item: None,
            api_used: 0,
            api_limit: 60000,
            hide_when_capturing: false,
            bring_forward: false,
            target_process_name: String::new(),
            target_window_title: String::new(),
            clipboard_mode: ClipboardMode::CopyTypst,
            continuous_clipboard: String::new(),
        }
    }
}

impl TypstScanData {
    /// Copies the fields one task needs out of the shared configuration,
    /// once, when the task begins processing; later pipeline steps read
    /// the copy and are insulated from concurrent edits.
    pub fn snapshot(&self) -> (s: ConfigSnapshot)
        ensures
            s.mathpix_api_key@ == self.mathpix_api_key@,
            rules_model(s.replace_rules@) == rules_model(self.replace_rules@),
            s.clipboard_mode == self.clipboard_mode,
    {
        ConfigSnapshot {
            mathpix_api_key: self.mathpix_api_key.clone(),
            replace_rules: clone_rules(&self.replace_rules),
            clipboard_mode: self.clipboard_mode,
        }
    }

    /// Folds at most one pending result into the session state, once per
    /// UI tick.  With no pending result the state is left exactly as it
    /// was; with one, the state changes as `merge_model` says and nothing
    /// else about it changes.
    pub fn merge_result(&mut self, result: Option<TaskResult>)
        ensures
            match result {
                Some(r) => final(self)@ == merge_model(old(self)@, r@),
                None => final(self)@ == old(self)@,
            },
    {
        match result {
            None => {},
            Some(r) => {
                let ghost rm = r@;
                match self.clipboard_mode {
                    ClipboardMode::Continuous => {
                        self.continuous_clipboard.append(r.typst.as_str());
                        self.continuous_clipboard.append("\n");
                        proof {
                            reveal_strlit("\n");
                            assert("\n"@ =~= newline());
                        }
                    },
                    _ => {},
                }
                self.api_used = r.snip_count;
                self.api_limit = r.snip_limit;
                self.selected_snip_item = Some(r.id);
                let item = SnipItem {
                    id: r.id,
                    title: r.title,
                    local_image: r.local_image,
                    original_image: r.original_image,
                    rendered_image: r.rendered_image,
                    tex: r.text,
                    typst: r.typst,
                };
                self.snip_items.push(item);
                proof {
                    assert(self@.snip_items =~= old(self)@.snip_items.push(
                        snip_item_model_of(rm),
                    ));
                }
            },
        }
    }
}

impl TypstScanData {
    /// Hands out the whole accumulation buffer and empties it; what the
    /// caller does with the text (a clipboard write) is its own business.
    pub fn take_all(&mut self) -> (r: String)
        ensures
            r@ == old(self).continuous_clipboard@,
            final(self)@ == (SessionModel { continuous_clipboard: Seq::empty(), ..old(self)@ }),
    {
        let r = self.continuous_clipboard.clone();
        self.continuous_clipboard = String::new();
        r
    }

    /// Deletes every snip item and clears the selection.
    pub fn clear_snips(&mut self)
        ensures
            final(self)@ == (SessionModel {
                snip_items: Seq::empty(),
                selected_snip_item: None,
                ..old(self)@
            }),
    {
        self.snip_items = Vec::new();
        self.selected_snip_item = None;
        proof {
            assert(self@.snip_items =~= Seq::<SnipItemModel>::empty());
        }
    }

    /// Replaces one item's converted text with a fresh conversion outcome
    /// for its (possibly user-edited) source text; the caller runs the
    /// converter at the application boundary and hands the outcome in.
    /// As everywhere, a missing conversion degrades to the empty string.
    /// Replace rules are not re-applied here.
    pub fn regenerate_typst(&mut self, index: usize, conversion: Option<String>)
        requires
            index < old(self).snip_items@.len(),
        ensures
            final(self)@ == (SessionModel {
                snip_items: old(self)@.snip_items.update(
                    index as int,
                    SnipItemModel {
                        typst: crate::convert::converted_text_spec(
                            crate::convert::conversion_view(conversion),
                        ),
                        ..old(self)@.snip_items[index as int]
                    },
                ),
                ..old(self)@
            }),
    {
        let ghost conv = crate::convert::conversion_view(conversion);
        let typst = crate::convert::convert_or_empty(conversion);
        let item = SnipItem {
            id: self.snip_items[index].id,
            title: self.snip_items[index].title.clone(),
            local_image: self.snip_items[index].local_image.clone(),
            original_image: self.snip_items[index].original_image.clone(),
            rendered_image: self.snip_items[index].rendered_image.clone(),
            tex: self.snip_items[index].tex.clone(),
            typst,
        };
        self.snip_items.set(index, item);
        proof {
            assert(self@.snip_items =~= old(self)@.snip_items.update(
                index as int,
                SnipItemModel {
                    typst: crate::convert::converted_text_spec(conv),
                    ..old(self)@.snip_items[index as int]
                },
            ));
        }
    }
}

/// The session state after a whole batch of results is merged, in arrival
/// order, one per tick.
pub open spec fn merge_all(s: SessionModel, rs: Seq<TaskResultModel>) -> SessionModel
    decreases rs.len(),
{
    if rs.len() == 0 {
        s
    } else {
        merge_all(merge_model(s, rs[0]), rs.skip(1))
    }
}

/// The converted-text blocks of a batch of results, in arrival order, each
/// ended by a line separator.
pub open spec fn blocks_of(rs: Seq<TaskResultModel>) -> Seq<char>
    decreases rs.len(),
{
    if rs.len() == 0 {
        Seq::empty()
    } else {
        rs[0].typst + newline() + blocks_of(rs.skip(1))
    }
}

/// In `Continuous` mode, after merging a batch of K results the
/// accumulation buffer holds exactly the K converted-text blocks,
/// separated by line breaks, in arrival order, and the item list has
/// grown by exactly K.
pub proof fn lemma_continuous_accumulation(s: SessionModel, rs: Seq<TaskResultModel>)
    requires
        s.clipboard_mode is Continuous,
    ensures
        merge_all(s, rs).continuous_clipboard == s.continuous_clipboard + blocks_of(rs),
        merge_all(s, rs).snip_items.len() == s.snip_items.len() + rs.len(),
    decreases rs.len(),
{
    if rs.len() == 0 {
        assert(s.continuous_clipboard + blocks_of(rs) =~= s.continuous_clipboard);
    } else {
        let s1 = merge_model(s, rs[0]);
        lemma_continuous_accumulation(s1, rs.skip(1));
        assert(s.continuous_clipboard + (rs[0].typst + newline()) + blocks_of(rs.skip(1)) =~= s
            .continuous_clipboard + (rs[0].typst + newline() + blocks_of(rs.skip(1))));
    }
}

/// The usage counters displayed after merging a nonempty batch equal the
/// most recently received result's counters, not an accumulation.
pub proof fn lemma_usage_counters_last(s: SessionModel, rs: Seq<TaskResultModel>)
    requires
        rs.len() > 0,
    ensures
        merge_all(s, rs).api_used == rs.last().snip_count,
        merge_all(s, rs).api_limit == rs.last().snip_limit,
    decreases rs.len(),
{
    if rs.len() == 1 {
        assert(merge_all(merge_model(s, rs[0]), rs.skip(1)) == merge_model(s, rs[0]));
    } else {
        lemma_usage_counters_last(merge_model(s, rs[0]), rs.skip(1));
        assert(rs.skip(1).last() == rs.last());
    }
}

} // verus!
