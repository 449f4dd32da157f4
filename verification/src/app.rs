//! The browsing state machine: the record store's lists, the span filter,
//! the focused pane, the detail rendering of the selected record, and the
//! reload reconciliation that preserves the user's place when the source
//! changes underneath the viewer.

use vstd::prelude::*;
use crate::highlight::{highlight_xml_text, xml_styled_lines};
use crate::log_message::{LogMessage, LogMessageView};
use crate::pretty_print::xml_pretty;
use crate::selected_log_message::SelectedLogMessage;
use crate::stateful_list::{StatefulList, clamped_selection, next_selection, prev_selection};
use crate::store::{LoadError, name_views};
use crate::styled::{TextSpanView, lines_view, plain_lines, spec_plain_rendering};
use crate::text::str_eq;

verus! {

broadcast use vstd::seq_lib::group_filter_ensures;

/// Which pane receives navigation keys.
#[derive(Clone, Copy, PartialEq, Eq, Structural, Debug)]
pub enum AppArea {
    Spans,
    Messages,
    MessageDetail,
}

impl Default for AppArea {
    /// Navigation starts in the message list.
    fn default() -> (r: Self)
        ensures
            r == AppArea::Messages,
    {
        AppArea::Messages
    }
}

/// The records a list holds, as mathematical values.
pub open spec fn message_views(items: Seq<LogMessage>) -> Seq<LogMessageView> {
    items.map_values(|m: LogMessage| m@)
}

/// The records tagged with the span `name`, in their original order.
pub open spec fn matching_views(all: Seq<LogMessageView>, name: Seq<char>) -> Seq<LogMessageView> {
    all.filter(|m: LogMessageView| m.has_span(name))
}

/// The span index as shown: the all-spans sentinel entry first, then the
/// span names.
pub open spec fn span_index_views(names: Seq<Seq<char>>) -> Seq<Seq<char>> {
    seq!["[All Messages]"@] + names
}

/// The visible record list a span selection produces: everything for the
/// all-spans entry at index 0, the tagged records for a specific span, and
/// an empty list for an out-of-range index or no selection.
pub open spec fn spec_visible(
    all: Seq<LogMessageView>,
    spans: Seq<Seq<char>>,
    sel: Option<usize>,
) -> Seq<LogMessageView> {
    match sel {
        None => Seq::empty(),
        Some(i) => if i == 0 {
            all
        } else if (i as nat) < spans.len() {
            matching_views(all, spans[i as int])
        } else {
            Seq::empty()
        },
    }
}

/// What the detail view shows for one record: unstyled plain text for a
/// record with no direction marker, whatever its body holds; otherwise the
/// canonical form highlighted, falling back to the plain rendering of the
/// raw body when the body is not valid structured content.
pub open spec fn spec_rendered_detail(m: LogMessageView) -> Seq<Seq<TextSpanView>> {
    if m.direction is None {
        spec_plain_rendering(m.message)
    } else {
        match xml_pretty(m.message) {
            Err(_) => spec_plain_rendering(m.message),
            Ok(p) => match xml_styled_lines(p) {
                None => spec_plain_rendering(m.message),
                Some(v) => v,
            },
        }
    }
}

/// The detail pane state a message selection produces: the rendering of the
/// selected record, scrolled to the top, or nothing without a selection.
pub open spec fn spec_detail_for(
    items: Seq<LogMessageView>,
    sel: Option<usize>,
    f: Option<SelectedLogMessage>,
) -> bool {
    match sel {
        None => f is None,
        Some(i) => if (i as nat) < items.len() {
            f matches Some(s) && lines_view(s.message@) == spec_rendered_detail(items[i as int])
                && s.vertical_position == 0
        } else {
            f is None
        },
    }
}

/// Everything an upward navigation step may do, by focused pane: move the
/// span selection one step back and re-derive the visible list; or move the
/// message selection one step back and re-render the detail; or scroll the
/// detail one line up. Nothing else changes.
pub open spec fn key_up_transition(pre: App, post: App) -> bool {
    match pre.selected_area {
        AppArea::Spans => {
            &&& post.spans.items == pre.spans.items
            &&& post.spans.state.selected == prev_selection(
                pre.spans.state.selected,
                pre.spans.items@.len(),
            )
            &&& post.spans.state.offset == pre.spans.state.offset
            &&& post.all_messages == pre.all_messages
            &&& post.formatted_message == pre.formatted_message
            &&& post.selected_area == pre.selected_area
            &&& post.visible_views() == spec_visible(
                pre.all_views(),
                pre.span_views(),
                post.spans.state.selected,
            )
            &&& post.messages.state.offset == 0
            &&& post.messages.state.selected == (if post.messages.items@.len() == 0 {
                Option::<usize>::None
            } else {
                Some(0usize)
            })
        },
        AppArea::Messages => {
            &&& post.messages.items == pre.messages.items
            &&& post.messages.state.selected == prev_selection(
                pre.messages.state.selected,
                pre.messages.items@.len(),
            )
            &&& post.messages.state.offset == pre.messages.state.offset
            &&& post.all_messages == pre.all_messages
            &&& post.spans == pre.spans
            &&& post.selected_area == pre.selected_area
            &&& spec_detail_for(
                post.visible_views(),
                post.messages.state.selected,
                post.formatted_message,
            )
        },
        AppArea::MessageDetail => {
            &&& post.all_messages == pre.all_messages
            &&& post.messages == pre.messages
            &&& post.spans == pre.spans
            &&& post.selected_area == pre.selected_area
            &&& match pre.formatted_message {
                None => post.formatted_message is None,
                Some(f) => post.formatted_message matches Some(g) && g.message == f.message
                    && g.vertical_position == (if f.vertical_position > 0 {
                    (f.vertical_position - 1) as u16
                } else {
                    0u16
                }),
            }
        },
    }
}

/// The mirror image of `key_up_transition` for a downward step.
pub open spec fn key_down_transition(pre: App, post: App) -> bool {
    match pre.selected_area {
        AppArea::Spans => {
            &&& post.spans.items == pre.spans.items
            &&& post.spans.state.selected == next_selection(
                pre.spans.state.selected,
                pre.spans.items@.len(),
            )
            &&& post.spans.state.offset == pre.spans.state.offset
            &&& post.all_messages == pre.all_messages
            &&& post.formatted_message == pre.formatted_message
            &&& post.selected_area == pre.selected_area
            &&& post.visible_views() == spec_visible(
                pre.all_views(),
                pre.span_views(),
                post.spans.state.selected,
            )
            &&& post.messages.state.offset == 0
            &&& post.messages.state.selected == (if post.messages.items@.len() == 0 {
                Option::<usize>::None
            } else {
                Some(0usize)
            })
        },
        AppArea::Messages => {
            &&& post.messages.items == pre.messages.items
            &&& post.messages.state.selected == next_selection(
                pre.messages.state.selected,
                pre.messages.items@.len(),
            )
            &&& post.messages.state.offset == pre.messages.state.offset
            &&& post.all_messages == pre.all_messages
            &&& post.spans == pre.spans
            &&& post.selected_area == pre.selected_area
            &&& spec_detail_for(
                post.visible_views(),
                post.messages.state.selected,
                post.formatted_message,
            )
        },
        AppArea::MessageDetail => {
            &&& post.all_messages == pre.all_messages
            &&& post.messages == pre.messages
            &&& post.spans == pre.spans
            &&& post.selected_area == pre.selected_area
            &&& match pre.formatted_message {
                None => post.formatted_message is None,
                Some(f) => post.formatted_message matches Some(g) && g.message == f.message
                    && g.vertical_position == (if f.vertical_position < u16::MAX {
                    (f.vertical_position + 1) as u16
                } else {
                    u16::MAX
                }),
            }
        },
    }
}

/// Whether a selection sat on the final index of a list of length `len`.
pub open spec fn was_following_tail(sel: Option<usize>, len: nat) -> bool {
    sel matches Some(i) && i + 1 == len
}

/// Where the message selection lands after a reload: a selection that
/// followed the tail keeps following it, any other is restored by its
/// numeric index, clamped to the new bounds.
pub open spec fn reconciled_selection(sel: Option<usize>, old_len: nat, new_len: nat) -> Option<
    usize,
> {
    if was_following_tail(sel, old_len) {
        if new_len == 0 {
            None
        } else {
            Some((new_len - 1) as usize)
        }
    } else {
        clamped_selection(sel, new_len)
    }
}

/// The span selection after a reload is restored by value: the first entry
/// of the new index holding the previously selected name, the sentinel at
/// index 0 when that name is gone or nothing was selected.
pub open spec fn restored_span_selection(pre: App, new_spans: Seq<Seq<char>>, sel: Option<usize>) -> bool {
    match pre.spans.state.selected {
        None => sel == Some(0usize),
        Some(i) => if (i as nat) < pre.spans.items@.len() && new_spans.contains(
            pre.span_views()[i as int],
        ) {
            {
                let name = pre.span_views()[i as int];
                sel matches Some(j) && (j as nat) < new_spans.len() && new_spans[j as int] == name
                    && (forall|k: int| 0 <= k < j ==> new_spans[k] != name)
            }
        } else {
            sel == Some(0usize)
        },
    }
}

/// Everything a reload may do. A failed load leaves the state untouched; a
/// successful one replaces the store wholesale and reconciles the user's
/// place: span selection by value, message selection by tail-follow or
/// clamped index, list scroll offsets verbatim, detail re-rendered at the
/// top.
pub open spec fn reload_transition(
    pre: App,
    post: App,
    loaded: Result<(Vec<LogMessage>, Vec<String>), LoadError>,
) -> bool {
    match loaded {
        Err(_) => post == pre,
        Ok((records, names)) => {
            let new_all = message_views(records@);
            let new_spans = span_index_views(name_views(names@));
            &&& post.selected_area == pre.selected_area
            &&& post.all_views() == new_all
            &&& post.all_messages.state.selected == (if new_all.len() == 0 {
                Option::<usize>::None
            } else {
                Some(0usize)
            })
            &&& post.all_messages.state.offset == 0
            &&& post.span_views() == new_spans
            &&& post.spans.state.offset == pre.spans.state.offset
            &&& restored_span_selection(pre, new_spans, post.spans.state.selected)
            &&& post.visible_views() == spec_visible(
                new_all,
                new_spans,
                post.spans.state.selected,
            )
            &&& post.messages.state.offset == pre.messages.state.offset
            &&& post.messages.state.selected == reconciled_selection(
                pre.messages.state.selected,
                pre.messages.items@.len(),
                post.messages.items@.len(),
            )
            &&& spec_detail_for(
                post.visible_views(),
                post.messages.state.selected,
                post.formatted_message,
            )
        },
    }
}

/// Whether `sub` can be read off `sup` left to right without reordering.
pub open spec fn is_subsequence<A>(sub: Seq<A>, sup: Seq<A>) -> bool
    decreases sub.len(), sup.len(),
{
    if sub.len() == 0 {
        true
    } else if sup.len() == 0 {
        false
    } else {
        (sub.last() == sup.last() && is_subsequence(sub.drop_last(), sup.drop_last()))
            || is_subsequence(sub, sup.drop_last())
    }
}

/// Filtering a span keeps an order-preserving subsequence: the visible list
/// for a specific span can be read off the full record list left to right,
/// every visible record carries the span, and every record of the full list
/// carrying it is visible.
pub proof fn lemma_span_filter_subsequence(all: Seq<LogMessageView>, name: Seq<char>)
    ensures
        is_subsequence(matching_views(all, name), all),
        forall|i: int|
            0 <= i < matching_views(all, name).len() ==> (#[trigger] matching_views(all, name)[i])
                .has_span(name),
        forall|i: int|
            0 <= i < all.len() && (#[trigger] all[i]).has_span(name) ==> matching_views(
                all,
                name,
            ).contains(all[i]),
    decreases all.len(),
{
    reveal(Seq::filter);
    if all.len() > 0 {
        lemma_span_filter_subsequence(all.drop_last(), name);
        let sub = matching_views(all, name);
        let prev = matching_views(all.drop_last(), name);
        if all.last().has_span(name) {
            assert(sub == prev.push(all.last()));
            assert(sub.last() == all.last());
            assert(sub.drop_last() =~= prev);
        } else {
            assert(sub == prev);
        }
        assert forall|i: int|
            0 <= i < all.len() && (#[trigger] all[i]).has_span(name) implies sub.contains(
            all[i],
        ) by {
            if i < all.len() - 1 {
                assert(all.drop_last()[i] == all[i]);
                assert(prev.contains(all[i]));
                let w = choose|w: int| 0 <= w < prev.len() && prev[w] == all[i];
                if all.last().has_span(name) {
                    assert(sub[w] == all[i]);
                } else {
                    assert(sub[w] == all[i]);
                }
            } else {
                assert(all[i] == all.last());
                assert(sub.last() == all[i]);
            }
        }
    }
}

proof fn lemma_subsequence_refl<A>(s: Seq<A>)
    ensures
        is_subsequence(s, s),
    decreases s.len(),
{
    if s.len() > 0 {
        lemma_subsequence_refl(s.drop_last());
    }
}

/// The visible list of any span selection is an order-preserving
/// subsequence of the full record list; for a specific in-range span it
/// holds exactly the records tagged with it, in their original order.
pub proof fn lemma_visible_is_subsequence(
    all: Seq<LogMessageView>,
    spans: Seq<Seq<char>>,
    sel: Option<usize>,
)
    ensures
        is_subsequence(spec_visible(all, spans, sel), all),
        (sel matches Some(k) && 1 <= k && (k as nat) < spans.len()) ==> {
            let visible = spec_visible(all, spans, sel);
            &&& forall|i: int|
                0 <= i < visible.len() ==> (#[trigger] visible[i]).has_span(spans[sel->0 as int])
            &&& forall|i: int|
                0 <= i < all.len() && (#[trigger] all[i]).has_span(spans[sel->0 as int])
                    ==> visible.contains(all[i])
        },
{
    match sel {
        None => {},
        Some(k) => {
            if k == 0 {
                lemma_subsequence_refl(all);
            } else if (k as nat) < spans.len() {
                lemma_span_filter_subsequence(all, spans[k as int]);
            }
        },
    }
}

/// A record whose body fails re-serialization is contained at the record
/// boundary: its detail rendering falls back to the unstyled raw body, and
/// nothing else is touched.
pub proof fn lemma_bad_body_falls_back(m: LogMessageView)
    requires
        m.direction is Some,
        xml_pretty(m.message) is Err,
    ensures
        spec_rendered_detail(m) == spec_plain_rendering(m.message),
{
}

/// Reload reconciliation of the message selection: a selection that sat on
/// the last index follows the tail of a longer reloaded list; one that did
/// not keeps its exact index whenever the new list is at least as long.
pub proof fn lemma_reload_reconciliation(sel: Option<usize>, old_len: nat, new_len: nat)
    requires
        sel matches Some(i) && (i as nat) < old_len,
    ensures
        was_following_tail(sel, old_len) && new_len > old_len ==> reconciled_selection(
            sel,
            old_len,
            new_len,
        ) == Some((new_len - 1) as usize),
        !was_following_tail(sel, old_len) && new_len >= old_len ==> reconciled_selection(
            sel,
            old_len,
            new_len,
        ) == sel,
{
}

/// Whether this record carries the span named `name`.
fn message_has_span(m: &LogMessage, name: &String) -> (b: bool)
    ensures
        b == m@.has_span(name@),
{
    match &m.spans {
        None => false,
        Some(ss) => {
            let ghost sviews = ss@.map_values(|sp: crate::log_message::Span| sp@);
            let mut i: usize = 0;
            while i < ss.len()
                invariant
                    i <= ss@.len(),
                    m@.spans == Some(sviews),
                    sviews == ss@.map_values(|sp: crate::log_message::Span| sp@),
                    forall|k: int| 0 <= k < i ==> #[trigger] sviews[k] != name@,
                decreases ss@.len() - i,
            {
                if str_eq(ss[i].name.as_str(), name.as_str()) {
                    proof {
                        assert(sviews.len() == ss@.len());
                        assert(m@.spans->0 == sviews);
                        assert(0 <= (i as int) < m@.spans->0.len() && m@.spans->0[i as int]
                            == name@);
                        assert(exists|t: int| 0 <= t < m@.spans->0.len() && m@.spans->0[t]
                            == name@);
                        assert(m@.has_span(name@));
                    }
                    return true;
                }
                i = i + 1;
            }
            false
        },
    }
}

/// An element-wise copy of a record list, equal to the original in view.
fn clone_messages(items: &Vec<LogMessage>) -> (r: Vec<LogMessage>)
    ensures
        message_views(r@) == message_views(items@),
{
    let mut out: Vec<LogMessage> = Vec::new();
    let mut i: usize = 0;
    while i < items.len()
        invariant
            i <= items@.len(),
            message_views(out@) == message_views(items@.subrange(0, i as int)),
        decreases items@.len() - i,
    {
        out.push(items[i].clone());
        i = i + 1;
        proof {
            assert(message_views(out@) =~= message_views(items@.subrange(0, i - 1)).push(
                items@[i - 1]@,
            ));
            assert(message_views(items@.subrange(0, i as int)) =~= message_views(
                items@.subrange(0, i - 1),
            ).push(items@[i - 1]@));
        }
    }
    proof {
        assert(items@.subrange(0, items@.len() as int) =~= items@);
    }
    out
}

/// The records of `all` tagged with the span `name`, in original order.
fn filter_messages(all: &Vec<LogMessage>, name: &String) -> (r: Vec<LogMessage>)
    ensures
        message_views(r@) == matching_views(message_views(all@), name@),
{
    let mut out: Vec<LogMessage> = Vec::new();
    let mut i: usize = 0;
    while i < all.len()
        invariant
            i <= all@.len(),
            message_views(out@) == matching_views(message_views(all@.subrange(0, i as int)), name@),
        decreases all@.len() - i,
    {
        let ghost pre = message_views(all@.subrange(0, i as int));
        let ghost cur = message_views(all@.subrange(0, i + 1));
        proof {
            reveal(Seq::filter);
            assert(cur =~= pre.push(all@[i as int]@));
            assert(cur.drop_last() =~= pre);
        }
        if message_has_span(&all[i], name) {
            out.push(all[i].clone());
            proof {
                assert(message_views(out@) =~= matching_views(pre, name@).push(all@[i as int]@));
            }
        }
        i = i + 1;
    }
    proof {
        assert(all@.subrange(0, all@.len() as int) =~= all@);
    }
    out
}

/// The index of the first entry of `names` that holds exactly `name`.
fn find_name(names: &Vec<String>, name: &String) -> (r: Option<usize>)
    ensures
        (r matches Some(j) ==> (j as nat) < names@.len() && name_views(names@)[j as int] == name@
            && (forall|k: int| 0 <= k < j ==> name_views(names@)[k] != name@)),
        (r is None ==> !name_views(names@).contains(name@)),
{
    let mut j: usize = 0;
    while j < names.len()
        invariant
            j <= names@.len(),
            forall|k: int| 0 <= k < j ==> name_views(names@)[k] != name@,
        decreases names@.len() - j,
    {
        if str_eq(names[j].as_str(), name.as_str()) {
            return Some(j);
        }
        j = j + 1;
    }
    proof {
        if name_views(names@).contains(name@) {
            let k = choose|k: int| 0 <= k < name_views(names@).len() && name_views(names@)[k]
                == name@;
            assert(name_views(names@)[k] != name@);
        }
    }
    None
}

/// The aggregate browsing state: every record, the currently visible
/// (filtered) records, the span index, the detail rendering and the focused
/// pane.
pub struct App {
    pub all_messages: StatefulList<LogMessage>,
    pub messages: StatefulList<LogMessage>,
    pub spans: StatefulList<String>,
    pub formatted_message: Option<SelectedLogMessage>,
    pub selected_area: AppArea,
}

impl App {
    /// Every list's selection, when present, is in bounds.
    pub open spec fn wf(&self) -> bool {
        self.all_messages.wf() && self.messages.wf() && self.spans.wf()
    }

    /// The full record sequence, as mathematical values.
    pub open spec fn all_views(&self) -> Seq<LogMessageView> {
        message_views(self.all_messages.items@)
    }

    /// The visible (span-filtered) record sequence.
    pub open spec fn visible_views(&self) -> Seq<LogMessageView> {
        message_views(self.messages.items@)
    }

    /// The span index entries, sentinel included.
    pub open spec fn span_views(&self) -> Seq<Seq<char>> {
        name_views(self.spans.items@)
    }

    /// Assemble the browsing state from a loaded store: every record
    /// visible, the span index prefixed with the all-spans sentinel, the
    /// message pane focused, no detail rendering yet.
    pub fn new(records: Vec<LogMessage>, span_names: Vec<String>) -> (app: App)
        ensures
            app.wf(),
            app.all_views() == message_views(records@),
            app.visible_views() == message_views(records@),
            app.span_views() == span_index_views(name_views(span_names@)),
            app.all_messages.state.selected == (if records@.len() == 0 {
                Option::<usize>::None
            } else {
                Some(0usize)
            }),
            app.all_messages.state.offset == 0,
            app.messages.state == app.all_messages.state,
            app.spans.state.selected == Some(0usize),
            app.spans.state.offset == 0,
            app.formatted_message is None,
            app.selected_area == AppArea::Messages,
    {
        let visible = clone_messages(&records);
        proof {
            assert(message_views(visible@).len() == visible@.len());
            assert(message_views(records@).len() == records@.len());
        }
        let mut span_items: Vec<String> = Vec::new();
        span_items.push("[All Messages]".to_owned());
        let mut i: usize = 0;
        while i < span_names.len()
            invariant
                i <= span_names@.len(),
                name_views(span_items@) == span_index_views(
                    name_views(span_names@.subrange(0, i as int)),
                ),
            decreases span_names@.len() - i,
        {
            span_items.push(span_names[i].clone());
            i = i + 1;
            proof {
                assert(name_views(span_items@) =~= span_index_views(
                    name_views(span_names@.subrange(0, i - 1)),
                ).push(span_names@[i - 1]@));
                assert(span_index_views(name_views(span_names@.subrange(0, i as int)))
                    =~= span_index_views(name_views(span_names@.subrange(0, i - 1))).push(
                    span_names@[i - 1]@,
                ));
            }
        }
        proof {
            assert(span_names@.subrange(0, span_names@.len() as int) =~= span_names@);
            assert(name_views(seq![]) =~= Seq::<Seq<char>>::empty());
        }
        let all_messages = StatefulList::with_items(records);
        let messages = StatefulList::with_items(visible);
        let spans = StatefulList::with_items(span_items);
        App { all_messages, messages, spans, formatted_message: None, selected_area: AppArea::Messages }
    }

    /// Hand navigation focus to a pane; nothing else moves.
    pub fn select_area(&mut self, area: AppArea)
        ensures
            *final(self) == (App { selected_area: area, ..*old(self) }),
    {
        self.selected_area = area;
    }

    /// How many records are visible.
    pub fn messages_len(&self) -> (n: usize)
        ensures
            n == self.messages.items@.len(),
    {
        self.messages.items.len()
    }

    /// Recompute the detail rendering for the current message selection;
    /// a record whose body fails to render falls back to its raw text.
    fn update_selected_message(&mut self)
        ensures
            final(self).all_messages == old(self).all_messages,
            final(self).messages == old(self).messages,
            final(self).spans == old(self).spans,
            final(self).selected_area == old(self).selected_area,
            spec_detail_for(
                old(self).visible_views(),
                old(self).messages.state.selected,
                final(self).formatted_message,
            ),
    {
        let fm: Option<SelectedLogMessage> = match self.messages.selected_item() {
            None => None,
            Some(m) => {
                let lines = match m.highlighted_stanza_xml_text() {
                    Ok(l) => l,
                    Err(_) => plain_lines(m.fields.message.as_str()),
                };
                Some(SelectedLogMessage::from_lines(lines))
            },
        };
        self.formatted_message = fm;
    }

    /// Re-derive the visible record list from the current span selection.
    fn update_selected_span(&mut self)
        requires
            old(self).wf(),
        ensures
            final(self).wf(),
            final(self).all_messages == old(self).all_messages,
            final(self).spans == old(self).spans,
            final(self).formatted_message == old(self).formatted_message,
            final(self).selected_area == old(self).selected_area,
            final(self).visible_views() == spec_visible(
                old(self).all_views(),
                old(self).span_views(),
                old(self).spans.state.selected,
            ),
            final(self).messages.state.offset == 0,
            final(self).messages.state.selected == (if final(self).messages.items@.len() == 0 {
                Option::<usize>::None
            } else {
                Some(0usize)
            }),
    {
        let new_items: Vec<LogMessage> = match self.spans.state.selected {
            None => Vec::new(),
            Some(i) => {
                if i == 0 {
                    clone_messages(&self.all_messages.items)
                } else if i < self.spans.items.len() {
                    let name = self.spans.items[i].clone();
                    proof {
                        assert(name@ == old(self).span_views()[i as int]);
                    }
                    filter_messages(&self.all_messages.items, &name)
                } else {
                    Vec::new()
                }
            },
        };
        self.messages = StatefulList::with_items(new_items);
    }

    /// Jump the message selection to the newest record (tail-follow) and
    /// re-render the detail view.
    pub fn jump_to_end(&mut self)
        requires
            old(self).wf(),
        ensures
            final(self).wf(),
            final(self).all_messages == old(self).all_messages,
            final(self).spans == old(self).spans,
            final(self).selected_area == old(self).selected_area,
            final(self).messages.items == old(self).messages.items,
            final(self).messages.state.offset == old(self).messages.state.offset,
            final(self).messages.state.selected == (if old(self).messages.items@.len() == 0 {
                Option::<usize>::None
            } else {
                Some((old(self).messages.items@.len() - 1) as usize)
            }),
            spec_detail_for(
                final(self).visible_views(),
                final(self).messages.state.selected,
                final(self).formatted_message,
            ),
    {
        self.messages.select_last();
        self.update_selected_message();
    }

    /// Route one upward navigation step by the focused pane: the span pane
    /// moves the span selection and re-filters, the
    /// message pane moves the message selection and re-renders the detail,
    /// the detail pane only scrolls.
    pub fn handle_key_up(&mut self)
        requires
            old(self).wf(),
        ensures
            final(self).wf(),
            key_up_transition(*old(self), *final(self)),
    {
        match self.selected_area {
            AppArea::Spans => {
                self.spans.prev();
                self.update_selected_span();
            },
            AppArea::Messages => {
                self.messages.prev();
                self.update_selected_message();
            },
            AppArea::MessageDetail => {
                let fm = self.formatted_message.take();
                self.formatted_message = match fm {
                    None => None,
                    Some(mut f) => {
                        f.prev();
                        Some(f)
                    },
                };
            },
        }
    }

    /// Route one downward navigation step by the focused pane, the mirror
    /// image of `handle_key_up`.
    pub fn handle_key_down(&mut self)
        requires
            old(self).wf(),
        ensures
            final(self).wf(),
            key_down_transition(*old(self), *final(self)),
    {
        match self.selected_area {
            AppArea::Spans => {
                self.spans.next();
                self.update_selected_span();
            },
            AppArea::Messages => {
                self.messages.next();
                self.update_selected_message();
            },
            AppArea::MessageDetail => {
                let fm = self.formatted_message.take();
                self.formatted_message = match fm {
                    None => None,
                    Some(mut f) => {
                        f.next();
                        Some(f)
                    },
                };
            },
        }
    }

    /// Rebuild the whole state from a fresh load, reconciling the user's
    /// place. A failed load aborts the reload and keeps
    /// the previous state untouched.
    pub fn reload_messages(&mut self, loaded: Result<(Vec<LogMessage>, Vec<String>), LoadError>)
        requires
            old(self).wf(),
        ensures
            final(self).wf(),
            reload_transition(*old(self), *final(self), loaded),
    {
        let (records, span_names) = match loaded {
            Ok(x) => x,
            Err(_) => {
                return ;
            },
        };
        // capture the user's place
        let old_message_sel = self.messages.state.selected;
        let old_len = self.messages.items.len();
        let is_at_bottom = match old_message_sel {
            Some(i) => old_len > 0 && i == old_len - 1,
            None => false,
        };
        let old_messages_offset = self.messages.state.offset;
        let old_spans_offset = self.spans.state.offset;
        let old_span_name: Option<String> = match self.spans.selected_item() {
            Some(s) => Some(s.clone()),
            None => None,
        };
        let area = self.selected_area;
        // rebuild from the fresh load
        let mut updated = App::new(records, span_names);
        updated.selected_area = area;
        // restore the span selection by value, falling back to the sentinel
        match &old_span_name {
            None => {},
            Some(name) => {
                match find_name(&updated.spans.items, name) {
                    Some(j) => {
                        updated.spans.state.selected = Some(j);
                    },
                    None => {
                        updated.spans.state.selected = Some(0);
                    },
                }
            },
        }
        // re-derive the visible list for the restored span
        updated.update_selected_span();
        // tail-follow, or restore the numeric index clamped to the new list
        if is_at_bottom {
            updated.messages.select_last();
        } else {
            updated.messages.select_index(old_message_sel);
        }
        // the list scroll offsets carry over verbatim
        updated.messages.set_offset(old_messages_offset);
        updated.spans.set_offset(old_spans_offset);
        updated.update_selected_message();
        *self = updated;
    }

    /// The text a copy command places on the clipboard: the canonical body
    /// of the selected record, or nothing when there is no selection or the
    /// body fails to re-serialize.
    pub fn copy_payload(&self) -> (r: Option<String>)
        ensures
            match self.messages.state.selected {
                None => r is None,
                Some(i) => if (i as nat) < self.visible_views().len() {
                    {
                        let m = self.visible_views()[i as int];
                        if m.direction is None {
                            r matches Some(s) && s@ == m.message
                        } else {
                            match xml_pretty(m.message) {
                                Ok(p) => r matches Some(s) && s@ == p,
                                Err(_) => r is None,
                            }
                        }
                    }
                } else {
                    r is None
                },
            },
    {
        match self.messages.selected_item() {
            None => None,
            Some(m) => match m.pretty_printed_xml() {
                Ok(s) => Some(s),
                Err(_) => None,
            },
        }
    }
}

} // verus!
