//! State of the PDF view: the find bar's cached matches and cursor, the
//! annotation that the action bar and the note editor work on, and the
//! tooltip that is shown; plus the texts of the page indicator and of the
//! find bar's match counter.

use vstd::prelude::*;

use crate::decimal::{append_decimal, decimal, decimal_string};

verus! {

/// A string option seen as an option of character sequences.
pub open spec fn opt_view(o: Option<String>) -> Option<Seq<char>> {
    match o {
        Some(s) => Some(s@),
        None => None,
    }
}

/// Index of the match that a find step selects.
///
/// After a new search the first match (forward) or the last one (backward)
/// is selected; otherwise the cursor moves by one and wraps around.
pub open spec fn next_match_spec(recomputed: bool, backwards: bool, current: nat, total: nat) -> nat {
    if recomputed {
        if backwards { (total - 1) as nat } else { 0 }
    } else if backwards {
        if current == 0 { (total - 1) as nat } else { (current - 1) as nat }
    } else if current + 1 >= total {
        0
    } else {
        current + 1
    }
}

/// Text of the find bar's match counter: empty when there is no match,
/// otherwise `current/total`.
pub open spec fn count_label_spec(current: nat, total: nat) -> Seq<char> {
    if total == 0 {
        Seq::empty()
    } else {
        decimal(current) + seq!['/'] + decimal(total)
    }
}

/// Text of the page indicator, `None` when the indicator is hidden: there is
/// no document, or it has no page. Without a current page the first page is
/// shown as current.
pub open spec fn page_indicator_spec(page_count: Option<usize>, current_index: Option<usize>) -> Option<Seq<char>> {
    match page_count {
        None => None,
        Some(total) => if total == 0 {
            None
        } else {
            let current: nat = match current_index {
                Some(i) => i as nat,
                None => 0,
            };
            Some(decimal(current + 1) + seq![' ', '/', ' '] + decimal(total as nat))
        },
    }
}

/// What a find step has to do before it can move the cursor.
#[derive(Debug, Clone, Copy, PartialEq, Eq, Structural)]
pub enum FindRequest {
    /// The results were dropped (empty query or no document): clear the
    /// selection and the counter.
    Cleared,
    /// The matches of this query in this document are already collected.
    Cached,
    /// The document must be searched and the matches stored.
    NeedsSearch,
}

/// What a find step selects.
#[derive(Debug, PartialEq, Eq)]
pub enum FindSelection {
    /// There is no match: clear the selection and the counter.
    NoMatches,
    /// Select the match at `index` and show `label` in the counter.
    Selected { index: usize, label: String },
}

/// What the tooltip has to do after the pointer moved.
#[derive(Debug, PartialEq, Eq)]
pub enum TooltipChange {
    /// The text under the pointer is the one shown already.
    Unchanged,
    /// Show this text.
    Show(String),
    /// Hide the tooltip.
    Hide,
}

/// The PDF view's own state. `S` is a search match (a selection in the
/// document), `A` an annotation.
#[derive(Debug)]
pub struct FoliumPDFView<S, A> {
    active_annotation: Option<A>,
    current_tooltip: Option<String>,
    note_annotation: Option<A>,
    find_query: Option<String>,
    find_document_id: Option<usize>,
    find_matches: Vec<S>,
    find_match_index: usize,
}

impl<S, A> FoliumPDFView<S, A> {
    /// The annotation that the action bar works on.
    pub closed spec fn active_annotation_view(&self) -> Option<A> {
        self.active_annotation
    }

    /// The annotation whose note is being edited.
    pub closed spec fn note_annotation_view(&self) -> Option<A> {
        self.note_annotation
    }

    /// The text of the tooltip on screen.
    pub closed spec fn current_tooltip_view(&self) -> Option<Seq<char>> {
        opt_view(self.current_tooltip)
    }

    /// The query whose matches are cached.
    pub closed spec fn find_query_view(&self) -> Option<Seq<char>> {
        opt_view(self.find_query)
    }

    /// The document whose matches are cached.
    pub closed spec fn find_document_view(&self) -> Option<usize> {
        self.find_document_id
    }

    /// The cached matches, in document order.
    pub closed spec fn find_matches_view(&self) -> Seq<S> {
        self.find_matches@
    }

    /// The match that the cursor is on.
    pub closed spec fn find_index_view(&self) -> nat {
        self.find_match_index as nat
    }

    /// The find cache is either empty or describes one (query, document)
    /// pair, and the cursor stands on a match whenever there is one.
    pub open spec fn wf(&self) -> bool {
        &&& (self.find_query_view() is None <==> self.find_document_view() is None)
        &&& (self.find_query_view() is None ==> self.find_matches_view().len() == 0)
        &&& (self.find_matches_view().len() == 0 ==> self.find_index_view() == 0)
        &&& (self.find_matches_view().len() > 0 ==> self.find_index_view() < self.find_matches_view().len())
    }

    /// The cache holds the matches of `query` in `document`, so a find step
    /// for them searches nothing.
    pub open spec fn find_cached_for(&self, query: Seq<char>, document: Option<usize>) -> bool {
        &&& self.find_query_view() == Some(query)
        &&& self.find_document_view() == document
    }

    /// No results are cached and the cursor is at the start.
    pub open spec fn find_cleared(&self) -> bool {
        &&& self.find_query_view() is None
        &&& self.find_document_view() is None
        &&& self.find_matches_view().len() == 0
        &&& self.find_index_view() == 0
    }

    /// The annotation and tooltip parts of two states agree.
    pub open spec fn same_marks(&self, other: &Self) -> bool {
        &&& self.active_annotation_view() == other.active_annotation_view()
        &&& self.note_annotation_view() == other.note_annotation_view()
        &&& self.current_tooltip_view() == other.current_tooltip_view()
    }

    /// The find parts of two states agree.
    pub open spec fn same_find(&self, other: &Self) -> bool {
        &&& self.find_query_view() == other.find_query_view()
        &&& self.find_document_view() == other.find_document_view()
        &&& self.find_matches_view() == other.find_matches_view()
        &&& self.find_index_view() == other.find_index_view()
    }

    /// A view with no document state: nothing cached, no annotation, no tooltip.
    pub fn new() -> (r: Self)
        ensures
            r.wf(),
            r.find_cleared(),
            r.active_annotation_view() is None,
            r.note_annotation_view() is None,
            r.current_tooltip_view() is None,
    {
        FoliumPDFView {
            active_annotation: None,
            current_tooltip: None,
            note_annotation: None,
            find_query: None,
            find_document_id: None,
            find_matches: Vec::new(),
            find_match_index: 0,
        }
    }

    /// Drops the cached matches and resets the cursor.
    fn clear_find_results(&mut self)
        ensures
            final(self).wf(),
            final(self).find_cleared(),
            final(self).same_marks(old(self)),
    {
        self.find_query = None;
        self.find_document_id = None;
        self.find_matches = Vec::new();
        self.find_match_index = 0;
    }

    /// Forgets the find results, as when a new document is loaded: the next
    /// find step searches again.
    pub fn invalidate_find_results(&mut self)
        ensures
            final(self).wf(),
            final(self).find_cleared(),
            final(self).same_marks(old(self)),
    {
        self.clear_find_results();
    }

    /// Closing the find bar forgets its results.
    pub fn hide_find_panel(&mut self)
        ensures
            final(self).wf(),
            final(self).find_cleared(),
            final(self).same_marks(old(self)),
    {
        self.clear_find_results();
    }

    /// First half of a find step, for the query typed in the find bar and
    /// the document on screen (`None` when there is none).
    ///
    /// An empty query clears the results; otherwise the results are
    /// refreshed as `refresh_find_matches` says.
    pub fn begin_find(&mut self, query: &String, document_id: Option<usize>) -> (r: FindRequest)
        requires
            old(self).wf(),
        ensures
            final(self).wf(),
            final(self).same_marks(old(self)),
            (query@.len() == 0 || document_id is None) ==> r == FindRequest::Cleared && final(self).find_cleared(),
            (query@.len() != 0 && document_id is Some) ==> final(self).same_find(old(self)) && (
                if old(self).find_cached_for(query@, document_id) {
                    r == FindRequest::Cached
                } else {
                    r == FindRequest::NeedsSearch
                }),
    {
        if query.as_str().is_empty() {
            self.clear_find_results();
            return FindRequest::Cleared;
        }
        self.refresh_find_matches(query, document_id)
    }

    /// Checks the cache of matches for `query` in the document on screen
    /// (`None` when there is none). Without a document the results are
    /// cleared. The matches of one (document, query) pair are collected
    /// once: for the pair already cached the state is left as it is and
    /// nothing needs to be searched; for any other pair the document must be
    /// searched and the matches stored.
    pub fn refresh_find_matches(&mut self, query: &String, document_id: Option<usize>) -> (r: FindRequest)
        requires
            old(self).wf(),
        ensures
            final(self).wf(),
            final(self).same_marks(old(self)),
            document_id is None ==> r == FindRequest::Cleared && final(self).find_cleared(),
            document_id is Some ==> final(self).same_find(old(self)) && (
                if old(self).find_cached_for(query@, document_id) {
                    r == FindRequest::Cached
                } else {
                    r == FindRequest::NeedsSearch
                }),
    {
        let doc = match document_id {
            Some(d) => d,
            None => {
                self.clear_find_results();
                return FindRequest::Cleared;
            },
        };
        let query_same = match &self.find_query {
            Some(q) => q.eq(query),
            None => false,
        };
        let document_same = match self.find_document_id {
            Some(d) => d == doc,
            None => false,
        };
        if query_same && document_same {
            FindRequest::Cached
        } else {
            FindRequest::NeedsSearch
        }
    }

    /// Stores the matches of `query` in the document `document_id` and puts
    /// the cursor on the first one.
    pub fn store_find_matches(&mut self, query: String, document_id: usize, matches: Vec<S>)
        ensures
            final(self).wf(),
            final(self).same_marks(old(self)),
            final(self).find_query_view() == Some(query@),
            final(self).find_document_view() == Some(document_id),
            final(self).find_matches_view() == matches@,
            final(self).find_index_view() == 0,
    {
        self.find_query = Some(query);
        self.find_document_id = Some(document_id);
        self.find_matches = matches;
        self.find_match_index = 0;
    }

    /// Second half of a find step: moves the cursor (`recomputed` tells that
    /// the matches were just collected) and says what to select.
    pub fn advance_find(&mut self, recomputed: bool, backwards: bool) -> (r: FindSelection)
        requires
            old(self).wf(),
        ensures
            final(self).wf(),
            final(self).same_marks(old(self)),
            final(self).find_query_view() == old(self).find_query_view(),
            final(self).find_document_view() == old(self).find_document_view(),
            final(self).find_matches_view() == old(self).find_matches_view(),
            old(self).find_matches_view().len() == 0 ==> r == FindSelection::NoMatches
                && final(self).find_index_view() == old(self).find_index_view(),
            old(self).find_matches_view().len() > 0 ==> {
                let total = old(self).find_matches_view().len();
                let idx = next_match_spec(recomputed, backwards, old(self).find_index_view(), total);
                &&& final(self).find_index_view() == idx
                &&& r matches FindSelection::Selected { index, label }
                &&& index == idx
                &&& label@ == count_label_spec(idx + 1, total)
            },
    {
        let total = self.find_matches.len();
        if total == 0 {
            return FindSelection::NoMatches;
        }
        let idx = next_match_index(recomputed, backwards, self.find_match_index, total);
        self.find_match_index = idx;
        FindSelection::Selected { index: idx, label: count_label(idx + 1, total) }
    }

    /// The match at `index`.
    pub fn find_match(&self, index: usize) -> (r: &S)
        requires
            index < self.find_matches_view().len(),
        ensures
            *r == self.find_matches_view()[index as int],
    {
        &self.find_matches[index]
    }

    /// Number of cached matches.
    pub fn find_match_count(&self) -> (r: usize)
        ensures
            r == self.find_matches_view().len(),
    {
        self.find_matches.len()
    }

    /// A click landed on `annotation`: the action bar now works on it.
    pub fn set_active_annotation(&mut self, annotation: A)
        ensures
            final(self).active_annotation_view() == Some(annotation),
            final(self).note_annotation_view() == old(self).note_annotation_view(),
            final(self).current_tooltip_view() == old(self).current_tooltip_view(),
            final(self).same_find(old(self)),
    {
        self.active_annotation = Some(annotation);
    }

    /// The annotation that the action bar works on.
    pub fn active_annotation(&self) -> (r: Option<&A>)
        ensures
            match r {
                Some(a) => self.active_annotation_view() == Some(*a),
                None => self.active_annotation_view() is None,
            },
    {
        match &self.active_annotation {
            Some(a) => Some(a),
            None => None,
        }
    }

    /// Deleting the active annotation: hands it out and forgets it.
    pub fn take_active_annotation(&mut self) -> (r: Option<A>)
        ensures
            r == old(self).active_annotation_view(),
            final(self).active_annotation_view() is None,
            final(self).note_annotation_view() == old(self).note_annotation_view(),
            final(self).current_tooltip_view() == old(self).current_tooltip_view(),
            final(self).same_find(old(self)),
    {
        let r = self.active_annotation.take();
        r
    }

    /// The note editor opens on `annotation`.
    pub fn show_note_editor(&mut self, annotation: A)
        ensures
            final(self).note_annotation_view() == Some(annotation),
            final(self).active_annotation_view() == old(self).active_annotation_view(),
            final(self).current_tooltip_view() == old(self).current_tooltip_view(),
            final(self).same_find(old(self)),
    {
        self.note_annotation = Some(annotation);
    }

    /// The note editor closes: it no longer works on any annotation.
    pub fn hide_note_editor(&mut self)
        ensures
            final(self).note_annotation_view() is None,
            final(self).active_annotation_view() == old(self).active_annotation_view(),
            final(self).current_tooltip_view() == old(self).current_tooltip_view(),
            final(self).same_find(old(self)),
    {
        self.note_annotation = None;
    }

    /// Saving the note editor's text `note` (`None` when the editor was never
    /// built): closes the editor and hands out the annotation with the
    /// contents it gets, no contents for an empty note.
    pub fn save_note(&mut self, note: Option<String>) -> (r: Option<(A, Option<String>)>)
        ensures
            final(self).note_annotation_view() is None,
            final(self).active_annotation_view() == old(self).active_annotation_view(),
            final(self).current_tooltip_view() == old(self).current_tooltip_view(),
            final(self).same_find(old(self)),
            match (note, old(self).note_annotation_view()) {
                (Some(n), Some(a)) => r matches Some((b, c)) && b == a
                    && opt_view(c) == (if n@.len() > 0 { Some(n@) } else { None }),
                _ => r is None,
            },
    {
        let annotation = self.note_annotation.take();
        match (note, annotation) {
            (Some(n), Some(a)) => Some((a, note_contents(n))),
            _ => None,
        }
    }

    /// The pointer moved over `under_pointer` (the non-empty contents of
    /// the annotation under it, if any): says what the tooltip must do.
    pub fn update_tooltip(&mut self, under_pointer: Option<String>) -> (r: TooltipChange)
        ensures
            final(self).current_tooltip_view() == opt_view(under_pointer),
            final(self).active_annotation_view() == old(self).active_annotation_view(),
            final(self).note_annotation_view() == old(self).note_annotation_view(),
            final(self).same_find(old(self)),
            old(self).current_tooltip_view() == opt_view(under_pointer) ==> r == TooltipChange::Unchanged,
            old(self).current_tooltip_view() != opt_view(under_pointer) ==> match under_pointer {
                Some(t) => r matches TooltipChange::Show(u) && u@ == t@,
                None => r == TooltipChange::Hide,
            },
    {
        let changed = match (&self.current_tooltip, &under_pointer) {
            (None, None) => false,
            (Some(a), Some(b)) => !a.eq(b),
            _ => true,
        };
        let r = if !changed {
            TooltipChange::Unchanged
        } else {
            match &under_pointer {
                Some(t) => TooltipChange::Show(t.clone()),
                None => TooltipChange::Hide,
            }
        };
        self.current_tooltip = under_pointer;
        r
    }

    /// The pointer left the view: no tooltip is shown.
    pub fn clear_tooltip(&mut self)
        ensures
            final(self).current_tooltip_view() is None,
            final(self).active_annotation_view() == old(self).active_annotation_view(),
            final(self).note_annotation_view() == old(self).note_annotation_view(),
            final(self).same_find(old(self)),
    {
        self.current_tooltip = None;
    }
}

/// Index of the match that a find step selects (see `next_match_spec`).
pub fn next_match_index(recomputed: bool, backwards: bool, current: usize, total: usize) -> (r: usize)
    requires
        0 < total,
        current < total,
    ensures
        r == next_match_spec(recomputed, backwards, current as nat, total as nat),
        r < total,
{
    if recomputed {
        if backwards { total - 1 } else { 0 }
    } else if backwards {
        if current == 0 { total - 1 } else { current - 1 }
    } else if current + 1 >= total {
        0
    } else {
        current + 1
    }
}

/// Text of the find bar's match counter.
pub fn count_label(current: usize, total: usize) -> (r: String)
    ensures
        r@ == count_label_spec(current as nat, total as nat),
{
    if total == 0 {
        return String::new();
    }
    let mut s = decimal_string(current);
    let slash = "/";
    proof { reveal_strlit("/"); }
    s.append(slash);
    append_decimal(&mut s, total);
    s
}

/// The contents that a note gives its annotation: none for an empty note.
pub fn note_contents(note: String) -> (r: Option<String>)
    ensures
        opt_view(r) == (if note@.len() > 0 { Some(note@) } else { None }),
{
    if note.as_str().is_empty() {
        None
    } else {
        Some(note)
    }
}

/// Text of the page indicator for a document of `page_count` pages
/// (`None`: no document) whose current page is `current_index`; `None` when
/// the indicator is hidden.
pub fn page_indicator_label(page_count: Option<usize>, current_index: Option<usize>) -> (r: Option<String>)
    requires
        match (page_count, current_index) {
            (Some(total), Some(i)) => total > 0 ==> i < usize::MAX,
            _ => true,
        },
    ensures
        opt_view(r) == page_indicator_spec(page_count, current_index),
{
    let total = match page_count {
        Some(t) => t,
        None => return None,
    };
    if total == 0 {
        return None;
    }
    let current = match current_index {
        Some(i) => i,
        None => 0,
    };
    let mut s = decimal_string(current + 1);
    let sep = " / ";
    proof { reveal_strlit(" / "); }
    s.append(sep);
    append_decimal(&mut s, total);
    Some(s)
}

} // verus!
