//! Layout of the two floating pills over the PDF view: the annotation bar
//! (delete, five colours, note) and the selection action panel (highlight,
//! highlight and note). Buttons are chained left to right; the pill's width is
//! the sum of the chain.

use vstd::prelude::*;

verus! {

/// Sum of a sequence of lengths.
pub open spec fn total(s: Seq<u32>) -> int
    decreases s.len(),
{
    if s.len() == 0 { 0 } else { total(s.drop_last()) + s.last() }
}

proof fn lemma_total_push(s: Seq<u32>, x: u32)
    ensures
        total(s.push(x)) == total(s) + x,
        total(Seq::<u32>::empty()) == 0,
{
    assert(s.push(x).drop_last() =~= s);
}

/// Width of a chain: padding, the items and the gaps between them, padding.
pub open spec fn chain_width(pad: u32, sizes: Seq<u32>, gaps: Seq<u32>) -> int {
    pad + total(sizes) + total(gaps) + pad
}

/// A pill of square buttons laid out in a row, in points: `pad` before the
/// first and after the last button, `gaps[i]` between buttons `i` and `i + 1`.
pub struct PillLayout {
    pub pad: u32,
    pub sizes: Vec<u32>,
    pub gaps: Vec<u32>,
    pub height: u32,
    pub width: u32,
}

impl PillLayout {
    /// One gap between each two buttons, and the width is that of the chain.
    pub open spec fn wf(&self) -> bool {
        &&& self.gaps@.len() + 1 == self.sizes@.len()
        &&& self.width == chain_width(self.pad, self.sizes@, self.gaps@)
    }
}

fn sum(v: &Vec<u32>) -> (r: u32)
    requires
        total(v@) <= u32::MAX,
        forall|i: int| 0 <= i < v@.len() ==> v@[i] <= 1000,
        v@.len() <= 1000,
    ensures
        r == total(v@),
{
    let mut acc: u32 = 0;
    let mut i: usize = 0;
    while i < v.len()
        invariant
            i <= v@.len(),
            v@.len() <= 1000,
            forall|j: int| 0 <= j < v@.len() ==> v@[j] <= 1000,
            acc == total(v@.take(i as int)),
            acc <= 1000 * i,
        decreases v@.len() - i,
    {
        assert(v@.take(i + 1).drop_last() =~= v@.take(i as int));
        acc = acc + v[i];
        i = i + 1;
    }
    assert(v@.take(i as int) =~= v@);
    acc
}

fn pill(pad: u32, sizes: Vec<u32>, gaps: Vec<u32>, height: u32) -> (r: PillLayout)
    requires
        pad <= 1000,
        sizes@.len() <= 1000,
        gaps@.len() <= 1000,
        forall|i: int| 0 <= i < sizes@.len() ==> sizes@[i] <= 1000,
        forall|i: int| 0 <= i < gaps@.len() ==> gaps@[i] <= 1000,
        total(sizes@) <= 1_000_000,
        total(gaps@) <= 1_000_000,
    ensures
        r.pad == pad,
        r.sizes@ == sizes@,
        r.gaps@ == gaps@,
        r.height == height,
        r.width == chain_width(pad, sizes@, gaps@),
{
    let w = pad + sum(&sizes) + sum(&gaps) + pad;
    PillLayout { pad, sizes, gaps, height, width: w }
}

/// Button sizes of the annotation bar, left to right.
pub open spec fn annotation_bar_sizes() -> Seq<u32> {
    seq![22u32, 18, 18, 18, 18, 18, 22]
}

/// Gaps between the annotation bar's buttons.
pub open spec fn annotation_bar_gaps() -> Seq<u32> {
    seq![6u32, 4, 4, 4, 4, 6]
}

/// Button sizes of the selection action panel.
pub open spec fn action_panel_sizes() -> Seq<u32> {
    seq![24u32, 24]
}

/// Gaps between the selection action panel's buttons.
pub open spec fn action_panel_gaps() -> Seq<u32> {
    seq![8u32]
}

/// The annotation bar: a 22-point delete button, five 18-point colour dots
/// (6 points after the delete button, 4 between dots), a 22-point note
/// button 6 points after the last dot; 10 points of padding; 36 points high.
pub fn annotation_bar_layout() -> (r: PillLayout)
    ensures
        r.wf(),
        r.pad == 10,
        r.sizes@ == annotation_bar_sizes(),
        r.gaps@ == annotation_bar_gaps(),
        r.height == 36,
        r.width == 182,
{
    let sizes: Vec<u32> = vec![22, 18, 18, 18, 18, 18, 22];
    let gaps: Vec<u32> = vec![6, 4, 4, 4, 4, 6];
    assert(sizes@ =~= seq![22u32, 18, 18, 18, 18, 18, 22]);
    assert(gaps@ =~= seq![6u32, 4, 4, 4, 4, 6]);
    proof {
        let e = Seq::<u32>::empty();
        lemma_total_push(e, 22);
        lemma_total_push(e.push(22), 18);
        lemma_total_push(e.push(22).push(18), 18);
        lemma_total_push(e.push(22).push(18).push(18), 18);
        lemma_total_push(e.push(22).push(18).push(18).push(18), 18);
        lemma_total_push(e.push(22).push(18).push(18).push(18).push(18), 18);
        lemma_total_push(e.push(22).push(18).push(18).push(18).push(18).push(18), 22);
        assert(sizes@ =~= e.push(22).push(18).push(18).push(18).push(18).push(18).push(22));
        lemma_total_push(e, 6);
        lemma_total_push(e.push(6), 4);
        lemma_total_push(e.push(6).push(4), 4);
        lemma_total_push(e.push(6).push(4).push(4), 4);
        lemma_total_push(e.push(6).push(4).push(4).push(4), 4);
        lemma_total_push(e.push(6).push(4).push(4).push(4).push(4), 6);
        assert(gaps@ =~= e.push(6).push(4).push(4).push(4).push(4).push(6));
    }
    pill(10, sizes, gaps, 36)
}

/// The selection action panel: two 24-point buttons, 8 points apart, with 8
/// points of padding; 36 points high.
pub fn action_panel_layout() -> (r: PillLayout)
    ensures
        r.wf(),
        r.pad == 8,
        r.sizes@ == action_panel_sizes(),
        r.gaps@ == action_panel_gaps(),
        r.height == 36,
        r.width == 72,
{
    let sizes: Vec<u32> = vec![24, 24];
    let gaps: Vec<u32> = vec![8];
    assert(sizes@ =~= seq![24u32, 24]);
    assert(gaps@ =~= seq![8u32]);
    proof {
        let e = Seq::<u32>::empty();
        lemma_total_push(e, 24);
        lemma_total_push(e.push(24), 24);
        assert(sizes@ =~= e.push(24).push(24));
        lemma_total_push(e, 8);
        assert(gaps@ =~= e.push(8));
    }
    pill(8, sizes, gaps, 36)
}

/// What a constraint of a pill ties a button to.
#[derive(Debug, Clone, Copy, PartialEq, Eq, Structural)]
pub enum PillAnchor {
    /// The button's leading edge, `constant` points after the pill's.
    LeadingToPill,
    /// The button's leading edge, `constant` points after the trailing edge
    /// of the button before it.
    LeadingToPrevious,
    /// The button's vertical centre on the pill's.
    CenterY,
    /// The button's width, `constant` points.
    Width,
    /// The button's height, `constant` points.
    Height,
    /// The button's trailing edge, `constant` points after the pill's.
    TrailingToPill,
}

/// A layout constraint of a pill's button `button`.
#[derive(Debug, Clone, Copy, PartialEq, Eq, Structural)]
pub struct PillConstraint {
    pub button: usize,
    pub anchor: PillAnchor,
    pub constant: i64,
}

/// Constraint `j` of a pill: four per button (leading edge, centre, width,
/// height), then the last button's trailing edge.
pub open spec fn pill_constraint_at(pad: u32, sizes: Seq<u32>, gaps: Seq<u32>, j: int) -> PillConstraint {
    let i = j / 4;
    let r = j % 4;
    if j == 4 * sizes.len() {
        PillConstraint { button: (sizes.len() - 1) as usize, anchor: PillAnchor::TrailingToPill, constant: (-pad) as i64 }
    } else if r == 0 {
        if i == 0 {
            PillConstraint { button: 0, anchor: PillAnchor::LeadingToPill, constant: pad as i64 }
        } else {
            PillConstraint { button: i as usize, anchor: PillAnchor::LeadingToPrevious, constant: gaps[i - 1] as i64 }
        }
    } else if r == 1 {
        PillConstraint { button: i as usize, anchor: PillAnchor::CenterY, constant: 0 }
    } else if r == 2 {
        PillConstraint { button: i as usize, anchor: PillAnchor::Width, constant: sizes[i] as i64 }
    } else {
        PillConstraint { button: i as usize, anchor: PillAnchor::Height, constant: sizes[i] as i64 }
    }
}

/// The constraints that chain a pill's buttons left to right: padding before
/// the first and after the last button, the gaps between them, each button
/// square at its size and centred vertically. A pill without buttons has
/// none.
pub open spec fn pill_constraints_spec(pad: u32, sizes: Seq<u32>, gaps: Seq<u32>) -> Seq<PillConstraint> {
    if sizes.len() == 0 {
        Seq::empty()
    } else {
        Seq::new(4 * sizes.len() + 1, |j: int| pill_constraint_at(pad, sizes, gaps, j))
    }
}

/// The constraints of the pill `layout`, in the order they are activated.
pub fn pill_constraints(layout: &PillLayout) -> (r: Vec<PillConstraint>)
    requires
        layout.wf(),
        layout.sizes@.len() <= 1000,
    ensures
        r@ == pill_constraints_spec(layout.pad, layout.sizes@, layout.gaps@),
{
    let n = layout.sizes.len();
    let mut v: Vec<PillConstraint> = Vec::new();
    if n == 0 {
        return v;
    }
    let ghost pad = layout.pad;
    let ghost sizes = layout.sizes@;
    let ghost gaps = layout.gaps@;
    let mut i: usize = 0;
    while i < n
        invariant
            n == sizes.len(),
            n <= 1000,
            gaps.len() + 1 == n,
            pad == layout.pad,
            sizes == layout.sizes@,
            gaps == layout.gaps@,
            i <= n,
            v@ =~= Seq::new(4 * i as nat, |j: int| pill_constraint_at(pad, sizes, gaps, j)),
        decreases n - i,
    {
        let leading = if i == 0 {
            PillConstraint { button: 0, anchor: PillAnchor::LeadingToPill, constant: layout.pad as i64 }
        } else {
            PillConstraint { button: i, anchor: PillAnchor::LeadingToPrevious, constant: layout.gaps[i - 1] as i64 }
        };
        let size = layout.sizes[i] as i64;
        v.push(leading);
        v.push(PillConstraint { button: i, anchor: PillAnchor::CenterY, constant: 0 });
        v.push(PillConstraint { button: i, anchor: PillAnchor::Width, constant: size });
        v.push(PillConstraint { button: i, anchor: PillAnchor::Height, constant: size });
        proof {
            let b = 4 * i as int;
            assert(b / 4 == i && b % 4 == 0);
            assert((b + 1) / 4 == i && (b + 1) % 4 == 1);
            assert((b + 2) / 4 == i && (b + 2) % 4 == 2);
            assert((b + 3) / 4 == i && (b + 3) % 4 == 3);
            assert(v@ =~= Seq::new(4 * (i + 1) as nat, |j: int| pill_constraint_at(pad, sizes, gaps, j)));
        }
        i = i + 1;
    }
    v.push(PillConstraint { button: n - 1, anchor: PillAnchor::TrailingToPill, constant: -(layout.pad as i64) });
    assert(v@ =~= pill_constraints_spec(pad, sizes, gaps));
    v
}

/// The colours that the annotation bar offers.
#[derive(Debug, Clone, Copy, PartialEq, Eq, Structural)]
pub enum AnnotationColor {
    Yellow,
    Green,
    Blue,
    Pink,
    Red,
}

/// A button of a pill: its SF Symbol, its accessibility label, the selector
/// it sends (by name) and, for a colour dot, the colour it shows.
pub struct PillButton {
    pub symbol: String,
    pub label: Option<String>,
    pub action: String,
    pub tint: Option<AnnotationColor>,
}

/// The selector that a colour dot sends.
pub open spec fn color_action(color: AnnotationColor) -> Seq<char> {
    match color {
        AnnotationColor::Yellow => "setAnnotationColorYellow:"@,
        AnnotationColor::Green => "setAnnotationColorGreen:"@,
        AnnotationColor::Blue => "setAnnotationColorBlue:"@,
        AnnotationColor::Pink => "setAnnotationColorPink:"@,
        AnnotationColor::Red => "setAnnotationColorRed:"@,
    }
}

/// The colours of the annotation bar, left to right.
pub open spec fn bar_colors() -> Seq<AnnotationColor> {
    seq![
        AnnotationColor::Yellow,
        AnnotationColor::Green,
        AnnotationColor::Blue,
        AnnotationColor::Pink,
        AnnotationColor::Red,
    ]
}

/// `b` is an icon button with this symbol, label and selector.
pub open spec fn is_icon_button(b: PillButton, symbol: Seq<char>, label: Seq<char>, action: Seq<char>) -> bool {
    &&& b.symbol@ == symbol
    &&& b.label matches Some(l) && l@ == label
    &&& b.action@ == action
    &&& b.tint is None
}

/// `b` is the colour dot of `color`.
pub open spec fn is_color_button(b: PillButton, color: AnnotationColor) -> bool {
    &&& b.symbol@ == "circle.fill"@
    &&& b.label is None
    &&& b.action@ == color_action(color)
    &&& b.tint == Some(color)
}

fn icon_button(symbol: &str, label: &str, action: &str) -> (r: PillButton)
    ensures
        is_icon_button(r, symbol@, label@, action@),
{
    PillButton {
        symbol: String::from_str(symbol),
        label: Some(String::from_str(label)),
        action: String::from_str(action),
        tint: None,
    }
}

fn color_button(color: AnnotationColor) -> (r: PillButton)
    ensures
        is_color_button(r, color),
{
    let action = match color {
        AnnotationColor::Yellow => "setAnnotationColorYellow:",
        AnnotationColor::Green => "setAnnotationColorGreen:",
        AnnotationColor::Blue => "setAnnotationColorBlue:",
        AnnotationColor::Pink => "setAnnotationColorPink:",
        AnnotationColor::Red => "setAnnotationColorRed:",
    };
    PillButton {
        symbol: String::from_str("circle.fill"),
        label: None,
        action: String::from_str(action),
        tint: Some(color),
    }
}

/// The buttons of the annotation bar, left to right: delete, the five
/// colour dots, add note; one for each slot of `annotation_bar_layout`.
pub fn annotation_bar_buttons() -> (r: Vec<PillButton>)
    ensures
        r@.len() == annotation_bar_sizes().len(),
        r@.len() == 7,
        is_icon_button(r@[0], "trash"@, "Delete"@, "deleteAnnotation:"@),
        forall|i: int| 1 <= i <= 5 ==> is_color_button(#[trigger] r@[i], bar_colors()[i - 1]),
        is_icon_button(r@[6], "note.text"@, "Add Note"@, "addAnnotationNote:"@),
{
    let mut v: Vec<PillButton> = Vec::new();
    v.push(icon_button("trash", "Delete", "deleteAnnotation:"));
    v.push(color_button(AnnotationColor::Yellow));
    v.push(color_button(AnnotationColor::Green));
    v.push(color_button(AnnotationColor::Blue));
    v.push(color_button(AnnotationColor::Pink));
    v.push(color_button(AnnotationColor::Red));
    v.push(icon_button("note.text", "Add Note", "addAnnotationNote:"));
    v
}

/// The buttons of the selection action panel: highlight, and highlight
/// with a note; one for each slot of `action_panel_layout`.
pub fn action_panel_buttons() -> (r: Vec<PillButton>)
    ensures
        r@.len() == action_panel_sizes().len(),
        r@.len() == 2,
        is_icon_button(r@[0], "highlighter"@, "Highlight"@, "highlightSelection:"@),
        is_icon_button(r@[1], "note.text"@, "Highlight & Add Note"@, "highlightAndAddNote:"@),
{
    let mut v: Vec<PillButton> = Vec::new();
    v.push(icon_button("highlighter", "Highlight", "highlightSelection:"));
    v.push(icon_button("note.text", "Highlight & Add Note", "highlightAndAddNote:"));
    v
}

} // verus!
