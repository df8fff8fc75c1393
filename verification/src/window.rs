//! The window that moves the native tab bar into its titlebar: how the tab
//! bar is recognised, where the toolbar view is found among the titlebar's
//! subviews, and the constraints that lay the tab bar over the toolbar.

use vstd::prelude::*;

verus! {

/// The window subclass keeps no state of its own.
#[derive(Debug, Default)]
pub struct FoliumWindowIvars {}

/// Layout attribute of the titlebar accessory that holds the tab bar
/// (`NSLayoutAttribute.bottom`).
pub const TAB_BAR_LAYOUT_ATTRIBUTE: i64 = 4;

/// Layout attribute that the tab bar accessory gets before it is added
/// (`NSLayoutAttribute.right`).
pub const TAB_BAR_PINNED_ATTRIBUTE: i64 = 2;

/// Room left of the tab bar for the window's traffic-light buttons, in points.
pub const TRAFFIC_LIGHTS_OFFSET: i64 = 78;

/// A titlebar accessory is the tab bar when it sits at the bottom and has
/// no identifier.
pub fn is_tab_bar(layout_attribute: i64, has_identifier: bool) -> (r: bool)
    ensures
        r == (layout_attribute == TAB_BAR_LAYOUT_ATTRIBUTE && !has_identifier),
{
    if layout_attribute != TAB_BAR_LAYOUT_ATTRIBUTE {
        return false;
    }
    !has_identifier
}

/// The index of the toolbar view among the titlebar view's subviews, given
/// the class name of the view found two levels above the tab bar and the
/// class names of its subviews: `None` unless that view is the titlebar view
/// and one subview is the toolbar view, else the first such subview.
pub fn toolbar_view_index(titlebar_class: &String, subview_classes: &Vec<String>) -> (r: Option<usize>)
    ensures
        titlebar_class@ != "NSTitlebarView"@ ==> r is None,
        titlebar_class@ == "NSTitlebarView"@ ==> match r {
            Some(i) => {
                &&& i < subview_classes@.len()
                &&& subview_classes@[i as int]@ == "NSToolbarView"@
                &&& forall|j: int| 0 <= j < i ==> subview_classes@[j]@ != "NSToolbarView"@
            },
            None => forall|j: int| 0 <= j < subview_classes@.len() ==> subview_classes@[j]@ != "NSToolbarView"@,
        },
{
    let titlebar = String::from_str("NSTitlebarView");
    if !titlebar_class.eq(&titlebar) {
        return None;
    }
    let toolbar = String::from_str("NSToolbarView");
    let mut i: usize = 0;
    while i < subview_classes.len()
        invariant
            i <= subview_classes@.len(),
            toolbar@ == "NSToolbarView"@,
            titlebar_class@ == "NSTitlebarView"@,
            forall|j: int| 0 <= j < i ==> subview_classes@[j]@ != "NSToolbarView"@,
        decreases subview_classes@.len() - i,
    {
        if subview_classes[i].eq(&toolbar) {
            return Some(i);
        }
        i = i + 1;
    }
    None
}

/// An anchor of a view's frame.
#[derive(Debug, Clone, Copy, PartialEq, Eq, Structural)]
pub enum Anchor {
    Left,
    Right,
    Top,
    Height,
}

/// The views that the tab bar's layout ties together.
#[derive(Debug, Clone, Copy, PartialEq, Eq, Structural)]
pub enum TitlebarView {
    /// The clip view that holds the tab bar.
    Clip,
    /// The tab bar itself.
    Accessory,
    /// The toolbar view beside the clip view.
    Toolbar,
}

/// `view.anchor == to.to_anchor + constant` (points).
#[derive(Debug, Clone, Copy, PartialEq, Eq, Structural)]
pub struct AnchorConstraint {
    pub view: TitlebarView,
    pub anchor: Anchor,
    pub to: TitlebarView,
    pub to_anchor: Anchor,
    pub constant: i64,
}

/// `view.anchor == to.anchor + constant`.
pub open spec fn same_anchor(view: TitlebarView, to: TitlebarView, anchor: Anchor, constant: i64) -> AnchorConstraint {
    AnchorConstraint { view, anchor, to, to_anchor: anchor, constant }
}

/// The clip view covers the toolbar, right of the traffic lights; the tab
/// bar fills the clip view.
pub open spec fn titlebar_constraints_spec() -> Seq<AnchorConstraint> {
    seq![
        same_anchor(TitlebarView::Clip, TitlebarView::Toolbar, Anchor::Left, TRAFFIC_LIGHTS_OFFSET),
        same_anchor(TitlebarView::Clip, TitlebarView::Toolbar, Anchor::Right, 0),
        same_anchor(TitlebarView::Clip, TitlebarView::Toolbar, Anchor::Top, 0),
        same_anchor(TitlebarView::Clip, TitlebarView::Toolbar, Anchor::Height, 0),
        same_anchor(TitlebarView::Accessory, TitlebarView::Clip, Anchor::Left, 0),
        same_anchor(TitlebarView::Accessory, TitlebarView::Clip, Anchor::Right, 0),
        same_anchor(TitlebarView::Accessory, TitlebarView::Clip, Anchor::Top, 0),
        same_anchor(TitlebarView::Accessory, TitlebarView::Clip, Anchor::Height, 0),
    ]
}

fn constraint(view: TitlebarView, to: TitlebarView, anchor: Anchor, constant: i64) -> (r: AnchorConstraint)
    ensures
        r == same_anchor(view, to, anchor, constant),
{
    AnchorConstraint { view, anchor, to, to_anchor: anchor, constant }
}

/// The constraints that put the tab bar into the titlebar, in the order
/// they are activated.
pub fn titlebar_constraints() -> (r: Vec<AnchorConstraint>)
    ensures
        r@ == titlebar_constraints_spec(),
{
    let mut v: Vec<AnchorConstraint> = Vec::new();
    v.push(constraint(TitlebarView::Clip, TitlebarView::Toolbar, Anchor::Left, TRAFFIC_LIGHTS_OFFSET));
    v.push(constraint(TitlebarView::Clip, TitlebarView::Toolbar, Anchor::Right, 0));
    v.push(constraint(TitlebarView::Clip, TitlebarView::Toolbar, Anchor::Top, 0));
    v.push(constraint(TitlebarView::Clip, TitlebarView::Toolbar, Anchor::Height, 0));
    v.push(constraint(TitlebarView::Accessory, TitlebarView::Clip, Anchor::Left, 0));
    v.push(constraint(TitlebarView::Accessory, TitlebarView::Clip, Anchor::Right, 0));
    v.push(constraint(TitlebarView::Accessory, TitlebarView::Clip, Anchor::Top, 0));
    v.push(constraint(TitlebarView::Accessory, TitlebarView::Clip, Anchor::Height, 0));
    assert(v@ =~= titlebar_constraints_spec());
    v
}

/// Name of the selector that returns `anchor` of a view.
pub open spec fn anchor_selector_spec(anchor: Anchor) -> Seq<char> {
    match anchor {
        Anchor::Left => "leftAnchor"@,
        Anchor::Right => "rightAnchor"@,
        Anchor::Top => "topAnchor"@,
        Anchor::Height => "heightAnchor"@,
    }
}

/// Name of the selector that returns `anchor` of a view.
pub fn anchor_selector(anchor: Anchor) -> (r: &'static str)
    ensures
        r@ == anchor_selector_spec(anchor),
{
    match anchor {
        Anchor::Left => "leftAnchor",
        Anchor::Right => "rightAnchor",
        Anchor::Top => "topAnchor",
        Anchor::Height => "heightAnchor",
    }
}

} // verus!
