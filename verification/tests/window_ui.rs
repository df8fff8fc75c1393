use folium::decimal::decimal_string;
use folium::layout::{
    action_panel_buttons, action_panel_layout, annotation_bar_buttons, annotation_bar_layout,
    pill_constraints, AnnotationColor, PillAnchor, PillConstraint,
};
use folium::ui::{bitmap_geometry, BitmapGeometry, SendPtr};
use folium::window::{
    anchor_selector, is_tab_bar, titlebar_constraints, toolbar_view_index, Anchor, FoliumWindowIvars,
    TitlebarView,
};

#[test]
fn tab_bar_is_recognised() {
    assert!(is_tab_bar(4, false));
    assert!(!is_tab_bar(4, true));
    assert!(!is_tab_bar(2, false));
}

#[test]
fn toolbar_view_is_found() {
    let names = |v: &[&str]| v.iter().map(|s| s.to_string()).collect::<Vec<String>>();
    let subviews = names(&["NSView", "NSToolbarView", "NSToolbarView"]);
    assert_eq!(toolbar_view_index(&"NSTitlebarView".to_string(), &subviews), Some(1));
    assert_eq!(toolbar_view_index(&"NSView".to_string(), &subviews), None);
    assert_eq!(toolbar_view_index(&"NSTitlebarView".to_string(), &names(&["NSView"])), None);
    assert_eq!(toolbar_view_index(&"NSTitlebarView".to_string(), &Vec::new()), None);
}

#[test]
fn tab_bar_constraints() {
    let c = titlebar_constraints();
    assert_eq!(c.len(), 8);
    assert_eq!((c[0].view, c[0].to, c[0].anchor, c[0].to_anchor, c[0].constant),
        (TitlebarView::Clip, TitlebarView::Toolbar, Anchor::Left, Anchor::Left, 78));
    assert!(c[1..].iter().all(|k| k.constant == 0 && k.anchor == k.to_anchor));
    assert!(c[4..].iter().all(|k| k.view == TitlebarView::Accessory && k.to == TitlebarView::Clip));
    assert_eq!(anchor_selector(Anchor::Height), "heightAnchor");
    assert_eq!(anchor_selector(Anchor::Left), "leftAnchor");
}

#[test]
fn pill_widths_match_their_chains() {
    let a = annotation_bar_layout();
    assert_eq!(a.width, 182);
    assert_eq!(a.width, 2 * a.pad + a.sizes.iter().sum::<u32>() + a.gaps.iter().sum::<u32>());
    assert_eq!(a.sizes.len(), a.gaps.len() + 1);
    let p = action_panel_layout();
    assert_eq!(p.width, 72);
    assert_eq!(p.height, 36);
}

#[test]
fn bitmap_geometry_checks_the_buffer() {
    assert_eq!(bitmap_geometry(16, 2, 2), Some(BitmapGeometry { pixels_wide: 2, pixels_high: 2, bytes_per_row: 8 }));
    assert_eq!(bitmap_geometry(15, 2, 2), None);
    assert_eq!(bitmap_geometry(0, 0, 5), Some(BitmapGeometry { pixels_wide: 0, pixels_high: 5, bytes_per_row: 0 }));
    assert_eq!(bitmap_geometry(100, usize::MAX / 2, 0), None);
}

fn require_send<T: Send>(_: &T) {}

#[test]
fn send_ptr_is_send_for_any_pointee() {
    // `Rc` is not `Send`; a handle on one still crosses threads.
    let p: SendPtr<std::rc::Rc<u8>> = SendPtr::new(0x1000);
    require_send(&p);
    assert_eq!(p.as_ptr(), 0x1000);
}

#[test]
fn send_ptr_keeps_the_address() {
    let p: SendPtr<u8> = SendPtr::new(0xdead);
    assert_eq!(p.as_ptr(), 0xdead);
    let _ivars = FoliumWindowIvars::default();
}

#[test]
fn decimal_strings() {
    assert_eq!(decimal_string(0), "0");
    assert_eq!(decimal_string(7), "7");
    assert_eq!(decimal_string(10), "10");
    assert_eq!(decimal_string(usize::MAX), usize::MAX.to_string());
    for n in [1usize, 9, 99, 100, 12345] {
        assert_eq!(decimal_string(n).parse::<usize>().unwrap(), n);
    }
}

#[test]
fn pill_buttons_fill_the_layout_slots() {
    let bar = annotation_bar_buttons();
    assert_eq!(bar.len(), annotation_bar_layout().sizes.len());
    assert_eq!(bar[0].action, "deleteAnnotation:");
    assert_eq!(bar[0].symbol, "trash");
    assert_eq!(bar[0].label.as_deref(), Some("Delete"));
    let tints: Vec<Option<AnnotationColor>> = bar.iter().map(|b| b.tint).collect();
    assert_eq!(tints, vec![
        None,
        Some(AnnotationColor::Yellow),
        Some(AnnotationColor::Green),
        Some(AnnotationColor::Blue),
        Some(AnnotationColor::Pink),
        Some(AnnotationColor::Red),
        None,
    ]);
    assert_eq!(bar[4].action, "setAnnotationColorPink:");
    assert_eq!(bar[6].action, "addAnnotationNote:");
    let panel = action_panel_buttons();
    assert_eq!(panel.len(), action_panel_layout().sizes.len());
    assert_eq!(panel[0].action, "highlightSelection:");
    assert_eq!(panel[1].label.as_deref(), Some("Highlight & Add Note"));
}

#[test]
fn pill_constraints_chain_the_buttons() {
    let c = pill_constraints(&annotation_bar_layout());
    assert_eq!(c.len(), 29);
    assert_eq!(c[0], PillConstraint { button: 0, anchor: PillAnchor::LeadingToPill, constant: 10 });
    assert_eq!(c[1], PillConstraint { button: 0, anchor: PillAnchor::CenterY, constant: 0 });
    assert_eq!(c[2], PillConstraint { button: 0, anchor: PillAnchor::Width, constant: 22 });
    assert_eq!(c[4], PillConstraint { button: 1, anchor: PillAnchor::LeadingToPrevious, constant: 6 });
    assert_eq!(c[7], PillConstraint { button: 1, anchor: PillAnchor::Height, constant: 18 });
    assert_eq!(c[8], PillConstraint { button: 2, anchor: PillAnchor::LeadingToPrevious, constant: 4 });
    assert_eq!(c[24], PillConstraint { button: 6, anchor: PillAnchor::LeadingToPrevious, constant: 6 });
    assert_eq!(c[28], PillConstraint { button: 6, anchor: PillAnchor::TrailingToPill, constant: -10 });
    let a = pill_constraints(&action_panel_layout());
    assert_eq!(a.len(), 9);
    assert_eq!(a[4], PillConstraint { button: 1, anchor: PillAnchor::LeadingToPrevious, constant: 8 });
    assert_eq!(a[8], PillConstraint { button: 1, anchor: PillAnchor::TrailingToPill, constant: -8 });
}
