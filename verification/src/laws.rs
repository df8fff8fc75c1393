//! Properties that hold across the library's operations.

use vstd::prelude::*;

use crate::app::{main_menu_spec, select_tab_spec, tab_item, without_window};
use crate::decimal::{decimal, digit_char};
use crate::layout::{color_action, AnnotationColor};
use crate::pdf_view::{next_match_spec, page_indicator_spec, FoliumPDFView};
use crate::window::{titlebar_constraints_spec, Anchor, TitlebarView, TRAFFIC_LIGHTS_OFFSET};
use crate::toolbar::{
    last_slash, lemma_last_slash, lemma_last_slash_at, next_generation, reload_decision, unix_file_name,
    FileStatus, FileWatch,
};

verus! {

/// The value of a decimal digit.
pub open spec fn digit_value(c: char) -> nat {
    if c == '1' { 1 }
    else if c == '2' { 2 }
    else if c == '3' { 3 }
    else if c == '4' { 4 }
    else if c == '5' { 5 }
    else if c == '6' { 6 }
    else if c == '7' { 7 }
    else if c == '8' { 8 }
    else if c == '9' { 9 }
    else { 0 }
}

/// The number that a string of decimal digits denotes.
pub open spec fn decimal_value(s: Seq<char>) -> nat
    decreases s.len(),
{
    if s.len() == 0 { 0 } else { decimal_value(s.drop_last()) * 10 + digit_value(s.last()) }
}

/// Reading back the decimal notation of a number gives the number.
pub proof fn law_decimal_reads_back(n: nat)
    ensures
        decimal_value(decimal(n)) == n,
    decreases n,
{
    if n < 10 {
        assert(decimal(n).drop_last() =~= Seq::<char>::empty());
        assert(decimal(n).last() == digit_char(n));
        assert(digit_value(digit_char(n)) == n);
        assert(decimal_value(Seq::<char>::empty()) == 0);
    } else {
        law_decimal_reads_back(n / 10);
        assert(decimal(n).drop_last() =~= decimal(n / 10));
        assert(decimal(n).last() == digit_char(n % 10));
        assert(digit_value(digit_char(n % 10)) == n % 10);
        assert((n / 10) * 10 + n % 10 == n);
    }
}

/// Different numbers have different decimal notations.
pub proof fn law_decimal_distinct(a: nat, b: nat)
    requires
        a != b,
    ensures
        decimal(a) != decimal(b),
{
    law_decimal_reads_back(a);
    law_decimal_reads_back(b);
}

/// Every find step stays on a match.
pub proof fn law_find_step_in_range(recomputed: bool, backwards: bool, current: nat, total: nat)
    requires
        0 < total,
        current < total,
    ensures
        next_match_spec(recomputed, backwards, current, total) < total,
{
}

/// "Find previous" undoes "find next" and the other way round, wrap-around
/// included.
pub proof fn law_find_previous_undoes_next(current: nat, total: nat)
    requires
        current < total,
    ensures
        next_match_spec(false, true, next_match_spec(false, false, current, total), total) == current,
        next_match_spec(false, false, next_match_spec(false, true, current, total), total) == current,
{
}

/// "Find next" moves to the following match and "find previous" to the one
/// before, both modulo the number of matches: repeated, either one visits
/// every match in turn.
pub proof fn law_find_steps_are_cyclic(current: nat, total: nat)
    requires
        current < total,
    ensures
        next_match_spec(false, false, current, total) == ((current + 1) as int) % (total as int),
        next_match_spec(false, true, current, total) == ((current + total - 1) as int) % (total as int),
{
    if current + 1 < total {
        vstd::arithmetic::div_mod::lemma_small_mod((current + 1) as nat, total);
    } else {
        vstd::arithmetic::div_mod::lemma_mod_self_0(total as int);
    }
    if current == 0 {
        vstd::arithmetic::div_mod::lemma_small_mod((total - 1) as nat, total);
    } else {
        vstd::arithmetic::div_mod::lemma_small_mod((current - 1) as nat, total);
        vstd::arithmetic::div_mod::lemma_mod_add_multiples_vanish(current - 1, total as int);
    }
}

/// After the matches of a query in a document are stored, a find step for
/// the same query and document uses them without searching again.
pub proof fn law_stored_matches_are_reused<S, A>(view: FoliumPDFView<S, A>, query: Seq<char>, document: usize)
    requires
        view.find_query_view() == Some(query),
        view.find_document_view() == Some(document),
    ensures
        view.find_cached_for(query, Some(document)),
{
}

/// Once the find results are cleared (a new document, a closed find bar),
/// no query is cached for any document: the next find step searches again.
pub proof fn law_cleared_results_are_searched_again<S, A>(view: FoliumPDFView<S, A>)
    requires
        view.find_cleared(),
    ensures
        forall|query: Seq<char>, document: Option<usize>| !view.find_cached_for(query, document),
{
}

/// The generation after `k` more reloads were scheduled or the watch was
/// started or stopped `k` times in all, starting from generation `g`.
pub open spec fn generation_after(g: u64, k: nat) -> u64
    decreases k,
{
    if k == 0 { g } else { next_generation(generation_after(g, (k - 1) as nat)) }
}

proof fn lemma_generation_after(g: u64, k: nat)
    ensures
        generation_after(g, k) as int == (g + k) % 0x1_0000_0000_0000_0000,
    decreases k,
{
    let m: int = 0x1_0000_0000_0000_0000;
    if k == 0 {
        vstd::arithmetic::div_mod::lemma_small_mod(g as nat, m as nat);
    } else {
        lemma_generation_after(g, (k - 1) as nat);
        let x = generation_after(g, (k - 1) as nat);
        vstd::arithmetic::div_mod::lemma_add_mod_noop(g + k - 1, 1, m);
        vstd::arithmetic::div_mod::lemma_small_mod(1, m as nat);
        if x == u64::MAX {
            assert((x + 1) % m == 0) by {
                vstd::arithmetic::div_mod::lemma_mod_self_0(m);
            }
        } else {
            vstd::arithmetic::div_mod::lemma_small_mod((x + 1) as nat, m as nat);
        }
    }
}

/// A reload scheduled with generation `g` does nothing when it fires once
/// a later reload was scheduled or the watch was started or stopped: after
/// `k` such events, fewer than 2^64, the generation differs from `g`.
pub proof fn law_pending_reload_goes_stale(g: u64, k: nat)
    requires
        0 < k < 0x1_0000_0000_0000_0000,
    ensures
        generation_after(g, k) != g,
{
    let m: int = 0x1_0000_0000_0000_0000;
    lemma_generation_after(g, k);
    if g + k < m {
        vstd::arithmetic::div_mod::lemma_small_mod((g + k) as nat, m as nat);
    } else {
        vstd::arithmetic::div_mod::lemma_small_mod((g + k - m) as nat, m as nat);
        vstd::arithmetic::div_mod::lemma_mod_sub_multiples_vanish(g + k, m);
    }
}

/// A call on a file watch leaves its generation as it is (queries, a reload
/// check that finds the file) or moves it to the next one
/// (`next_reload_generation`, `stop_file_watch`, `start_file_watch`, a
/// scheduled reload, a reload check that finds the file gone): every
/// `FileWatch` method states one of the two in its `ensures`.
pub open spec fn generation_step(before: u64, after: u64) -> bool {
    after == before || after == next_generation(before)
}

/// The generations of a run of file-watch states.
pub open spec fn generations<W>(watches: Seq<FileWatch<W>>) -> Seq<u64> {
    watches.map_values(|w: FileWatch<W>| w.generation_view())
}

/// How many steps of a run of generations moved to the next generation.
pub open spec fn bump_count(gens: Seq<u64>) -> nat
    decreases gens.len(),
{
    if gens.len() < 2 {
        0
    } else {
        bump_count(gens.drop_last()) + (if gens.last() == gens[gens.len() - 2] { 0nat } else { 1nat })
    }
}

/// Over any run of calls on a file watch, from state `watches[0]` to the
/// last state, the generation is the starting one moved on once per bump;
/// so a reload scheduled with the starting generation is still current at
/// the end exactly when nothing bumped it, as long as fewer than 2^64 bumps
/// happened.
pub proof fn law_reload_goes_stale_over_calls<W>(watches: Seq<FileWatch<W>>)
    requires
        watches.len() > 0,
        forall|i: int| 0 <= i < watches.len() - 1
            ==> generation_step(#[trigger] watches[i].generation_view(), watches[i + 1].generation_view()),
    ensures
        watches.last().generation_view() == generation_after(
            watches[0].generation_view(),
            bump_count(generations(watches)),
        ),
        bump_count(generations(watches)) == 0 ==> watches.last().generation_view() == watches[0].generation_view(),
        0 < bump_count(generations(watches)) < 0x1_0000_0000_0000_0000
            ==> watches.last().generation_view() != watches[0].generation_view(),
    decreases watches.len(),
{
    let gens = generations(watches);
    if watches.len() > 1 {
        let prefix = watches.drop_last();
        assert forall|i: int| 0 <= i < prefix.len() - 1
            implies generation_step(#[trigger] prefix[i].generation_view(), prefix[i + 1].generation_view()) by {
            assert(prefix[i] == watches[i]);
            assert(prefix[i + 1] == watches[i + 1]);
            assert(generation_step(watches[i].generation_view(), watches[i + 1].generation_view()));
        }
        law_reload_goes_stale_over_calls(prefix);
        assert(generations(prefix) =~= gens.drop_last());
        let n = watches.len() - 1;
        assert(generation_step(watches[n - 1].generation_view(), watches[n].generation_view()));
        assert(gens.last() == watches[n].generation_view());
        assert(gens[gens.len() - 2] == watches[n - 1].generation_view());
        assert(prefix.last() == watches[n - 1]);
        assert(prefix[0] == watches[0]);
    } else {
        assert(watches.last() == watches[0]);
    }
    let k = bump_count(gens);
    if 0 < k < 0x1_0000_0000_0000_0000 {
        law_pending_reload_goes_stale(watches[0].generation_view(), k);
    }
}

/// A change of the watched file reloads the document once: with the new
/// modification time recorded, looking again at the unchanged file does not
/// reload it a second time.
pub proof fn law_one_reload_per_change(last_mtime: Option<i128>, t: i128)
    ensures
        reload_decision(true, last_mtime, FileStatus::Modified(t)) == (last_mtime != Some(t)),
        !reload_decision(true, Some(t), FileStatus::Modified(t)),
{
}

/// Closing a window drops every tab of that window.
pub proof fn law_closed_window_has_no_tab<T>(tabs: Seq<(usize, T)>, window: usize)
    ensures
        forall|i: int| 0 <= i < without_window(tabs, window).len() ==> without_window(tabs, window)[i].0 != window,
    decreases tabs.len(),
{
    if tabs.len() > 0 {
        law_closed_window_has_no_tab(tabs.drop_first(), window);
        let rest = without_window(tabs.drop_first(), window);
        if tabs[0].0 != window {
            assert forall|i: int| 0 <= i < without_window(tabs, window).len() implies without_window(tabs, window)[i].0 != window by {
                if i > 0 {
                    assert(without_window(tabs, window)[i] == rest[i - 1]);
                }
            }
        }
    }
}

/// Closing a window keeps every tab of the other windows.
pub proof fn law_other_tabs_are_kept<T>(tabs: Seq<(usize, T)>, window: usize)
    ensures
        forall|i: int| 0 <= i < tabs.len() && tabs[i].0 != window ==> without_window(tabs, window).contains(tabs[i]),
    decreases tabs.len(),
{
    if tabs.len() > 0 {
        law_other_tabs_are_kept(tabs.drop_first(), window);
        let rest = without_window(tabs.drop_first(), window);
        assert forall|i: int| 0 <= i < tabs.len() && tabs[i].0 != window implies without_window(tabs, window).contains(tabs[i]) by {
            if i == 0 {
                assert(without_window(tabs, window)[0] == tabs[0]);
            } else {
                assert(tabs[i] == tabs.drop_first()[i - 1]);
                assert(rest.contains(tabs[i]));
                let j = choose|j: int| 0 <= j < rest.len() && rest[j] == tabs[i];
                if tabs[0].0 == window {
                    assert(without_window(tabs, window)[j] == tabs[i]);
                } else {
                    assert(without_window(tabs, window)[j + 1] == tabs[i]);
                }
            }
        }
    }
}

/// Closing a window of which no tab is open changes nothing.
pub proof fn law_closing_unknown_window_keeps_all<T>(tabs: Seq<(usize, T)>, window: usize)
    requires
        forall|i: int| 0 <= i < tabs.len() ==> tabs[i].0 != window,
    ensures
        without_window(tabs, window) == tabs,
    decreases tabs.len(),
{
    if tabs.len() > 0 {
        law_closing_unknown_window_keeps_all(tabs.drop_first(), window);
        assert(seq![tabs[0]] + tabs.drop_first() =~= tabs);
    }
}

/// The Window menu's item "Tab k" (`1 <= k <= 9`) selects the `k`-th window
/// of the tab group, when there is one.
pub proof fn law_tab_item_selects_its_tab(k: nat, window_count: usize)
    requires
        1 <= k <= 9,
    ensures
        main_menu_spec()[3].entries[k + 1int] == tab_item(k),
        tab_item(k) matches Some(item) && item.tag matches Some(tag)
            && select_tab_spec(tag as i64, window_count) == (if k - 1 < window_count {
                Some((k - 1) as usize)
            } else {
                None::<usize>
            }),
{
    assert(main_menu_spec()[3].entries[k + 1int] == tab_item(k));
}

/// The nine "Tab k" items have nine different key equivalents.
pub proof fn law_tab_keys_distinct(j: nat, k: nat)
    requires
        1 <= j < k <= 9,
    ensures
        tab_item(j) matches Some(a) && tab_item(k) matches Some(b) && a.key != b.key,
{
    law_decimal_distinct(j, k);
}

/// The page indicator of a document with `n > 0` pages whose current page
/// has index `i` reads "`i + 1` / `n`": the page shown is counted from one,
/// and reads back as exactly one more than the index; without a current
/// page it reads "1 / `n`"; without a document or pages nothing is shown.
pub proof fn law_page_indicator_counts_from_one(n: usize, i: usize)
    ensures
        0 < n && i < n ==> page_indicator_spec(Some(n), Some(i)) == Some(
            decimal((i + 1) as nat) + seq![' ', '/', ' '] + decimal(n as nat),
        ),
        0 < n && i < n ==> (page_indicator_spec(Some(n), Some(i)) matches Some(text)
            && decimal_value(text.subrange(0, decimal((i + 1) as nat).len() as int)) == i + 1),
        0 < n ==> page_indicator_spec(Some(n), None) == Some(
            seq!['1'] + seq![' ', '/', ' '] + decimal(n as nat),
        ),
        page_indicator_spec(None, Some(i)) is None,
        page_indicator_spec(Some(0), Some(i)) is None,
{
    law_decimal_reads_back((i + 1) as nat);
    let d = decimal((i + 1) as nat);
    let text = d + seq![' ', '/', ' '] + decimal(n as nat);
    assert(text.subrange(0, d.len() as int) =~= d);
    assert(decimal(1) =~= seq!['1']);
}

/// The name that the colour `c` has in its selector.
pub open spec fn color_name(c: AnnotationColor) -> Seq<char> {
    match c {
        AnnotationColor::Yellow => seq!['Y', 'e', 'l', 'l', 'o', 'w'],
        AnnotationColor::Green => seq!['G', 'r', 'e', 'e', 'n'],
        AnnotationColor::Blue => seq!['B', 'l', 'u', 'e'],
        AnnotationColor::Pink => seq!['P', 'i', 'n', 'k'],
        AnnotationColor::Red => seq!['R', 'e', 'd'],
    }
}

/// Each colour dot sends the selector named after its own colour,
/// `setAnnotationColor<Colour>:`, so two different colours never send the
/// same selector.
pub proof fn law_color_dot_sends_its_colour(c: AnnotationColor, d: AnnotationColor)
    ensures
        color_action(c) == "setAnnotationColor"@ + color_name(c) + seq![':'],
        c != d ==> color_action(c) != color_action(d),
{
    reveal_strlit("setAnnotationColor");
    reveal_strlit("setAnnotationColorYellow:");
    reveal_strlit("setAnnotationColorGreen:");
    reveal_strlit("setAnnotationColorBlue:");
    reveal_strlit("setAnnotationColorPink:");
    reveal_strlit("setAnnotationColorRed:");
    assert(color_action(c) =~= "setAnnotationColor"@ + color_name(c) + seq![':']);
    assert(color_action(d) =~= "setAnnotationColor"@ + color_name(d) + seq![':']);
    if c != d {
        assert(color_action(c)[18] == color_name(c)[0]);
        assert(color_action(d)[18] == color_name(d)[0]);
        assert(color_action(c)[18] != color_action(d)[18]);
    }
}

/// The constraint that ties `view`'s anchor `a` to the same anchor of `to`.
pub open spec fn ties(c: crate::window::AnchorConstraint, view: TitlebarView, to: TitlebarView, a: Anchor) -> bool {
    c.view == view && c.to == to && c.anchor == a && c.to_anchor == a
}

/// The tab bar's constraints pin the clip view to the toolbar and the tab
/// bar to the clip view on each of the four anchors (left, right, top,
/// height), exactly once each; every one is an equality except the clip
/// view's left edge, which leaves room for the traffic lights; so the tab bar
/// fills the clip view, and the clip view spans the toolbar right of the
/// traffic lights.
pub proof fn law_tab_bar_pinned_on_every_anchor(a: Anchor)
    ensures
        titlebar_constraints_spec().len() == 8,
        exists|i: int| 0 <= i < 8 && ties(titlebar_constraints_spec()[i], TitlebarView::Clip, TitlebarView::Toolbar, a),
        exists|i: int| 0 <= i < 8 && ties(titlebar_constraints_spec()[i], TitlebarView::Accessory, TitlebarView::Clip, a),
        forall|i: int, j: int| 0 <= i < 8 && 0 <= j < 8
            && ties(titlebar_constraints_spec()[i], TitlebarView::Clip, TitlebarView::Toolbar, a)
            && ties(titlebar_constraints_spec()[j], TitlebarView::Clip, TitlebarView::Toolbar, a) ==> i == j,
        forall|i: int, j: int| 0 <= i < 8 && 0 <= j < 8
            && ties(titlebar_constraints_spec()[i], TitlebarView::Accessory, TitlebarView::Clip, a)
            && ties(titlebar_constraints_spec()[j], TitlebarView::Accessory, TitlebarView::Clip, a) ==> i == j,
        forall|i: int| 0 <= i < 8 ==> {
            let c = #[trigger] titlebar_constraints_spec()[i];
            &&& c.anchor == c.to_anchor
            &&& (c.view == TitlebarView::Clip && c.to == TitlebarView::Toolbar)
                || (c.view == TitlebarView::Accessory && c.to == TitlebarView::Clip)
            &&& c.constant == (if c.view == TitlebarView::Clip && c.anchor == Anchor::Left {
                TRAFFIC_LIGHTS_OFFSET
            } else {
                0
            })
        },
{
    let s = titlebar_constraints_spec();
    let k: int = match a {
        Anchor::Left => 0,
        Anchor::Right => 1,
        Anchor::Top => 2,
        Anchor::Height => 3,
    };
    assert(ties(s[k], TitlebarView::Clip, TitlebarView::Toolbar, a));
    assert(ties(s[k + 4], TitlebarView::Accessory, TitlebarView::Clip, a));
}

/// After a new search, "find next" selects the first match and "find
/// previous" the last one, wherever the cursor stood.
pub proof fn law_new_search_starts_at_an_end(current: nat, total: nat)
    requires
        0 < total,
    ensures
        next_match_spec(true, false, current, total) == 0,
        next_match_spec(true, true, current, total) == total - 1,
{
}

/// A normal path component: not empty, no `/`, and neither `.` nor `..`.
pub open spec fn is_normal_component(name: Seq<char>) -> bool {
    &&& name.len() > 0
    &&& forall|i: int| 0 <= i < name.len() ==> name[i] != '/'
    &&& name != seq!['.']
    &&& name != seq!['.', '.']
}

/// A file name on its own is its own name, whatever characters it holds.
pub proof fn law_bare_name_is_its_own_name(name: Seq<char>)
    requires
        is_normal_component(name),
    ensures
        unix_file_name(name) == Some(name),
{
    lemma_last_slash_at(name, -1);
    assert(name.subrange(0, name.len() as int) =~= name);
}

/// The name of `dir/name` is `name`, whatever the directory part is.
pub proof fn law_name_follows_the_last_slash(dir: Seq<char>, name: Seq<char>)
    requires
        is_normal_component(name),
    ensures
        unix_file_name(dir + seq!['/'] + name) == Some(name),
{
    let q = dir + seq!['/'] + name;
    assert forall|i: int| dir.len() < i < q.len() implies q[i] != '/' by {
        assert(q[i] == name[i - dir.len() - 1]);
    }
    lemma_last_slash_at(q, dir.len() as int);
    assert(q.subrange(dir.len() + 1int, q.len() as int) =~= name);
}

/// A trailing `/` or a trailing `/.` does not change the name; a path that
/// ends in `/..` has none.
pub proof fn law_trailing_separators_and_dots(p: Seq<char>)
    ensures
        unix_file_name(p.push('/')) == unix_file_name(p),
        unix_file_name(p + seq!['/', '.']) == unix_file_name(p),
        unix_file_name(p + seq!['/', '.', '.']) is None,
        unix_file_name(seq!['.', '.']) is None,
{
    let a = p.push('/');
    lemma_last_slash_at(a, p.len() as int);
    assert(a.subrange(p.len() + 1int, a.len() as int) =~= Seq::<char>::empty());
    assert(a.subrange(0, p.len() as int) =~= p);

    let b = p + seq!['/', '.'];
    assert forall|i: int| p.len() < i < b.len() implies b[i] != '/' by {}
    lemma_last_slash_at(b, p.len() as int);
    assert(b.subrange(p.len() + 1int, b.len() as int) =~= seq!['.']);
    assert(b.subrange(0, p.len() as int) =~= p);

    let c = p + seq!['/', '.', '.'];
    assert forall|i: int| p.len() < i < c.len() implies c[i] != '/' by {}
    lemma_last_slash_at(c, p.len() as int);
    assert(c.subrange(p.len() + 1int, c.len() as int) =~= seq!['.', '.']);

    let d = seq!['.', '.'];
    lemma_last_slash_at(d, -1);
    assert(d.subrange(0, 2) =~= d);
}

/// `name` stands somewhere in `path`, as a run of consecutive characters.
pub open spec fn occurs_in(name: Seq<char>, path: Seq<char>) -> bool {
    exists|a: int| 0 <= a && a + name.len() <= path.len() && #[trigger] path.subrange(a, a + name.len()) =~= name
}

proof fn lemma_occurs_in_prefix(name: Seq<char>, rest: Seq<char>, p: Seq<char>)
    requires
        occurs_in(name, rest),
        rest.len() <= p.len(),
        rest =~= p.subrange(0, rest.len() as int),
    ensures
        occurs_in(name, p),
{
    let a = choose|a: int| 0 <= a && a + name.len() <= rest.len() && #[trigger] rest.subrange(a, a + name.len()) =~= name;
    assert(p.subrange(a, a + name.len()) =~= rest.subrange(a, a + name.len()));
}

/// A name, when there is one, is a normal component that stands in the path.
pub proof fn law_name_is_a_component_of_the_path(p: Seq<char>)
    ensures
        unix_file_name(p) matches Some(name) ==> is_normal_component(name) && occurs_in(name, p),
    decreases p.len(),
{
    if p.len() > 0 {
        lemma_last_slash(p);
        let k = last_slash(p);
        let seg = p.subrange(k + 1, p.len() as int);
        let rest = if k < 0 { Seq::<char>::empty() } else { p.subrange(0, k) };
        if seg.len() == 0 || seg == seq!['.'] {
            assert(unix_file_name(p) == unix_file_name(rest));
            law_name_is_a_component_of_the_path(rest);
            if let Some(name) = unix_file_name(rest) {
                assert(rest =~= p.subrange(0, rest.len() as int));
                lemma_occurs_in_prefix(name, rest, p);
            }
        } else if seg != seq!['.', '.'] {
            assert(unix_file_name(p) == Some(seg));
            assert forall|i: int| 0 <= i < seg.len() implies seg[i] != '/' by {
                assert(seg[i] == p[k + 1 + i]);
            }
            let a = k + 1;
            assert(p.subrange(a, a + seg.len()) =~= seg);
            assert(occurs_in(seg, p));
            assert(is_normal_component(seg));
        } else {
            assert(unix_file_name(p) is None);
        }
    } else {
        assert(unix_file_name(p) is None);
    }
}

} // verus!
