use folium::pdf_view::{
    count_label, next_match_index, note_contents, page_indicator_label, FindRequest, FindSelection,
    FoliumPDFView, TooltipChange,
};

fn view_with_matches(query: &str, doc: usize, n: usize) -> FoliumPDFView<usize, u32> {
    let mut v: FoliumPDFView<usize, u32> = FoliumPDFView::new();
    let q = query.to_string();
    assert_eq!(v.begin_find(&q, Some(doc)), FindRequest::NeedsSearch);
    v.store_find_matches(q, doc, (0..n).map(|i| i * 10).collect());
    v
}

#[test]
fn empty_query_clears_results() {
    let mut v = view_with_matches("pdf", 1, 3);
    assert_eq!(v.begin_find(&String::new(), Some(1)), FindRequest::Cleared);
    assert_eq!(v.find_match_count(), 0);
    let q = "pdf".to_string();
    assert_eq!(v.begin_find(&q, Some(1)), FindRequest::NeedsSearch);
}

#[test]
fn missing_document_clears_results() {
    let mut v = view_with_matches("pdf", 1, 3);
    assert_eq!(v.begin_find(&"pdf".to_string(), None), FindRequest::Cleared);
    assert_eq!(v.find_match_count(), 0);
}

#[test]
fn same_query_and_document_reuse_matches() {
    let mut v = view_with_matches("pdf", 1, 3);
    assert_eq!(v.begin_find(&"pdf".to_string(), Some(1)), FindRequest::Cached);
}

#[test]
fn other_query_or_document_searches_again() {
    let mut v = view_with_matches("pdf", 1, 3);
    assert_eq!(v.begin_find(&"PDF".to_string(), Some(1)), FindRequest::NeedsSearch);
    assert_eq!(v.begin_find(&"pdf".to_string(), Some(2)), FindRequest::NeedsSearch);
    assert_eq!(v.find_match_count(), 3);
}

#[test]
fn invalidate_forces_new_search() {
    let mut v = view_with_matches("pdf", 1, 3);
    v.invalidate_find_results();
    assert_eq!(v.find_match_count(), 0);
    assert_eq!(v.begin_find(&"pdf".to_string(), Some(1)), FindRequest::NeedsSearch);
}

#[test]
fn hide_find_panel_forgets_results() {
    let mut v = view_with_matches("pdf", 1, 3);
    v.hide_find_panel();
    assert_eq!(v.find_match_count(), 0);
    assert_eq!(v.advance_find(false, false), FindSelection::NoMatches);
}

#[test]
fn new_search_starts_at_first_or_last() {
    let mut v = view_with_matches("pdf", 1, 4);
    assert_eq!(v.advance_find(true, false), FindSelection::Selected { index: 0, label: "1/4".to_string() });
    let mut w = view_with_matches("pdf", 1, 4);
    assert_eq!(w.advance_find(true, true), FindSelection::Selected { index: 3, label: "4/4".to_string() });
    assert_eq!(*w.find_match(3), 30);
}

#[test]
fn next_and_previous_wrap_around() {
    let mut v = view_with_matches("pdf", 1, 3);
    assert_eq!(v.advance_find(true, false), FindSelection::Selected { index: 0, label: "1/3".to_string() });
    assert_eq!(v.advance_find(false, false), FindSelection::Selected { index: 1, label: "2/3".to_string() });
    assert_eq!(v.advance_find(false, false), FindSelection::Selected { index: 2, label: "3/3".to_string() });
    assert_eq!(v.advance_find(false, false), FindSelection::Selected { index: 0, label: "1/3".to_string() });
    assert_eq!(v.advance_find(false, true), FindSelection::Selected { index: 2, label: "3/3".to_string() });
}

#[test]
fn no_matches_selects_nothing() {
    let mut v = view_with_matches("zzz", 1, 0);
    assert_eq!(v.advance_find(true, false), FindSelection::NoMatches);
}

#[test]
fn law_previous_undoes_next_on_values() {
    for total in 1..6usize {
        for cur in 0..total {
            let n = next_match_index(false, false, cur, total);
            assert_eq!(next_match_index(false, true, n, total), cur);
            let p = next_match_index(false, true, cur, total);
            assert_eq!(next_match_index(false, false, p, total), cur);
            assert!(n < total && p < total);
        }
    }
}

#[test]
fn count_label_texts() {
    assert_eq!(count_label(0, 0), "");
    assert_eq!(count_label(5, 0), "");
    assert_eq!(count_label(1, 1), "1/1");
    assert_eq!(count_label(12, 305), "12/305");
}

#[test]
fn page_indicator_texts() {
    assert_eq!(page_indicator_label(None, None), None);
    assert_eq!(page_indicator_label(Some(0), None), None);
    assert_eq!(page_indicator_label(None, Some(usize::MAX)), None);
    assert_eq!(page_indicator_label(Some(0), Some(usize::MAX)), None);
    assert_eq!(page_indicator_label(Some(42), Some(2)), Some("3 / 42".to_string()));
    assert_eq!(page_indicator_label(Some(7), None), Some("1 / 7".to_string()));
    assert_eq!(page_indicator_label(Some(100), Some(99)), Some("100 / 100".to_string()));
}

#[test]
fn note_contents_of_empty_note_is_none() {
    assert_eq!(note_contents(String::new()), None);
    assert_eq!(note_contents("hi".to_string()), Some("hi".to_string()));
}

#[test]
fn note_editor_round_trip() {
    let mut v: FoliumPDFView<usize, u32> = FoliumPDFView::new();
    v.show_note_editor(7);
    assert_eq!(v.save_note(Some("remember".to_string())), Some((7, Some("remember".to_string()))));
    // the editor closed: a second save changes nothing
    assert_eq!(v.save_note(Some("again".to_string())), None);
    v.show_note_editor(8);
    assert_eq!(v.save_note(Some(String::new())), Some((8, None)));
    v.show_note_editor(9);
    v.hide_note_editor();
    assert_eq!(v.save_note(Some("x".to_string())), None);
    v.show_note_editor(10);
    assert_eq!(v.save_note(None), None);
}

#[test]
fn active_annotation_is_taken_once() {
    let mut v: FoliumPDFView<usize, u32> = FoliumPDFView::new();
    assert_eq!(v.active_annotation(), None);
    v.set_active_annotation(3);
    assert_eq!(v.active_annotation(), Some(&3));
    assert_eq!(v.take_active_annotation(), Some(3));
    assert_eq!(v.take_active_annotation(), None);
}

#[test]
fn tooltip_changes_only_when_text_differs() {
    let mut v: FoliumPDFView<usize, u32> = FoliumPDFView::new();
    assert_eq!(v.update_tooltip(None), TooltipChange::Unchanged);
    assert_eq!(v.update_tooltip(Some("a".to_string())), TooltipChange::Show("a".to_string()));
    assert_eq!(v.update_tooltip(Some("a".to_string())), TooltipChange::Unchanged);
    assert_eq!(v.update_tooltip(Some("b".to_string())), TooltipChange::Show("b".to_string()));
    assert_eq!(v.update_tooltip(None), TooltipChange::Hide);
    v.update_tooltip(Some("c".to_string()));
    v.clear_tooltip();
    assert_eq!(v.update_tooltip(None), TooltipChange::Unchanged);
}

#[test]
fn refresh_without_document_clears() {
    let mut v = view_with_matches("pdf", 1, 3);
    assert_eq!(v.refresh_find_matches(&"pdf".to_string(), None), FindRequest::Cleared);
    assert_eq!(v.find_match_count(), 0);
}

#[test]
fn refresh_reuses_the_cached_pair_twice() {
    let mut v = view_with_matches("pdf", 1, 3);
    assert_eq!(v.advance_find(true, false), FindSelection::Selected { index: 0, label: "1/3".to_string() });
    assert_eq!(v.refresh_find_matches(&"pdf".to_string(), Some(1)), FindRequest::Cached);
    assert_eq!(v.refresh_find_matches(&"pdf".to_string(), Some(1)), FindRequest::Cached);
    assert_eq!(v.find_match_count(), 3);
    // the cursor did not move
    assert_eq!(v.advance_find(false, false), FindSelection::Selected { index: 1, label: "2/3".to_string() });
    assert_eq!(v.refresh_find_matches(&"other".to_string(), Some(1)), FindRequest::NeedsSearch);
}

#[test]
fn refresh_reuses_even_an_empty_query() {
    let mut v: FoliumPDFView<usize, u32> = FoliumPDFView::new();
    v.store_find_matches(String::new(), 4, vec![1, 2]);
    assert_eq!(v.refresh_find_matches(&String::new(), Some(4)), FindRequest::Cached);
    assert_eq!(v.begin_find(&String::new(), Some(4)), FindRequest::Cleared);
}
