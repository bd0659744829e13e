//! The declarative layout builder for the popover's content.
//!
//! Given a content size and an ordered row list, [`build_view_tree`] computes
//! the complete view tree: a translucent backdrop, a header, a divider, a
//! scrollable list region whose rows stack top-down, and a footer with a logo,
//! a version label and a refresh control. Construction is deterministic — the
//! result is pinned, field by field, to [`spec_view_tree`] — and the builder
//! retains nothing: every call returns a fresh, independently owned tree.
//!
//! Coordinates have a bottom-left origin. Within the list region's local
//! space, row `i` (in list order) sits at vertical offset
//! `list_top - (i + 1) * ROW_HEIGHT`, so the first row is nearest the top and
//! identical inputs always yield identical offsets.

use vstd::prelude::*;

use crate::geometry::{Rect, RectModel};
use crate::rows::{
    spec_severity_color, severity_color, IndicatorColor, RowDescriptor, RowModel, rows_view,
};

verus! {

/// Side margin between the content edge and every framed part.
pub const MARGIN: i64 = 12;

/// Height of one list row; rows also stack at this pitch.
pub const ROW_HEIGHT: i64 = 40;

/// Vertical space reserved outside the list region: the header band above it
/// and the footer band below it.
pub const CHROME_HEIGHT: i64 = 160;

/// Bound on the content extent the builder accepts; far beyond any real
/// display, it only keeps frame arithmetic inside machine integers.
pub const MAX_EXTENT: i64 = 0x1000_0000_0000;

/// Bound on the row count the builder accepts; it only keeps row-offset
/// arithmetic inside machine integers.
pub const MAX_ROWS: usize = 0x1000_0000;

/// A static text field.
pub struct LabelView {
    pub frame: Rect,
    pub text: String,
    /// Point size of the system font the text is set in.
    pub font_size: u8,
    /// Whether the bold system font is used.
    pub bold: bool,
}

/// The ghost counterpart of [`LabelView`].
pub ghost struct LabelModel {
    pub frame: RectModel,
    pub text: Seq<char>,
    pub font_size: u8,
    pub bold: bool,
}

impl View for LabelView {
    type V = LabelModel;

    open spec fn view(&self) -> LabelModel {
        LabelModel {
            frame: self.frame@,
            text: self.text@,
            font_size: self.font_size,
            bold: self.bold,
        }
    }
}

/// An image view showing a named system glyph, drawn as a template so it
/// follows the system appearance.
pub struct GlyphView {
    pub frame: Rect,
    pub symbol: String,
}

/// The ghost counterpart of [`GlyphView`].
pub ghost struct GlyphModel {
    pub frame: RectModel,
    pub symbol: Seq<char>,
}

impl View for GlyphView {
    type V = GlyphModel;

    open spec fn view(&self) -> GlyphModel {
        GlyphModel { frame: self.frame@, symbol: self.symbol@ }
    }
}

/// The circular severity indicator trailing a row.
pub struct IndicatorView {
    pub frame: Rect,
    pub color: IndicatorColor,
    pub corner_radius: i64,
}

/// The ghost counterpart of [`IndicatorView`].
pub ghost struct IndicatorModel {
    pub frame: RectModel,
    pub color: IndicatorColor,
    pub corner_radius: int,
}

impl View for IndicatorView {
    type V = IndicatorModel;

    open spec fn view(&self) -> IndicatorModel {
        IndicatorModel {
            frame: self.frame@,
            color: self.color,
            corner_radius: self.corner_radius as int,
        }
    }
}

/// One built row: a leading glyph, a label, and a trailing indicator, framed
/// within the list region's local space.
pub struct RowView {
    pub frame: Rect,
    pub glyph: GlyphView,
    pub label: LabelView,
    pub indicator: IndicatorView,
}

/// The ghost counterpart of [`RowView`].
pub ghost struct RowViewModel {
    pub frame: RectModel,
    pub glyph: GlyphModel,
    pub label: LabelModel,
    pub indicator: IndicatorModel,
}

impl View for RowView {
    type V = RowViewModel;

    open spec fn view(&self) -> RowViewModel {
        RowViewModel {
            frame: self.frame@,
            glyph: self.glyph@,
            label: self.label@,
            indicator: self.indicator@,
        }
    }
}

/// The full-frame translucent blur fill behind the content, with the
/// toolkit's numbers for its material, blending mode and activity state.
pub struct BackdropView {
    pub frame: Rect,
    pub material: u8,
    pub blending: u8,
    pub state: u8,
}

/// The ghost counterpart of [`BackdropView`].
pub ghost struct BackdropModel {
    pub frame: RectModel,
    pub material: u8,
    pub blending: u8,
    pub state: u8,
}

impl View for BackdropView {
    type V = BackdropModel;

    open spec fn view(&self) -> BackdropModel {
        BackdropModel {
            frame: self.frame@,
            material: self.material,
            blending: self.blending,
            state: self.state,
        }
    }
}

/// The scrollable list region: its frame in content space, its document
/// frame, and the rows stacked inside the document.
pub struct ListRegionView {
    pub frame: Rect,
    pub doc_frame: Rect,
    pub rows: Vec<RowView>,
}

/// The ghost counterpart of [`ListRegionView`].
pub ghost struct ListRegionModel {
    pub frame: RectModel,
    pub doc_frame: RectModel,
    pub rows: Seq<RowViewModel>,
}

impl View for ListRegionView {
    type V = ListRegionModel;

    open spec fn view(&self) -> ListRegionModel {
        ListRegionModel {
            frame: self.frame@,
            doc_frame: self.doc_frame@,
            rows: self.rows@.map(|i: int, r: RowView| r@),
        }
    }
}

/// A push button with a title.
pub struct ButtonView {
    pub frame: Rect,
    pub title: String,
}

/// The ghost counterpart of [`ButtonView`].
pub ghost struct ButtonModel {
    pub frame: RectModel,
    pub title: Seq<char>,
}

impl View for ButtonView {
    type V = ButtonModel;

    open spec fn view(&self) -> ButtonModel {
        ButtonModel { frame: self.frame@, title: self.title@ }
    }
}

/// The footer band: a logo glyph, a version label, and a refresh control
/// (currently inert — the binding layer attaches no handler to it).
pub struct FooterView {
    pub frame: Rect,
    pub logo: GlyphView,
    pub version: LabelView,
    pub refresh: ButtonView,
}

/// The ghost counterpart of [`FooterView`].
pub ghost struct FooterModel {
    pub frame: RectModel,
    pub logo: GlyphModel,
    pub version: LabelModel,
    pub refresh: ButtonModel,
}

impl View for FooterView {
    type V = FooterModel;

    open spec fn view(&self) -> FooterModel {
        FooterModel {
            frame: self.frame@,
            logo: self.logo@,
            version: self.version@,
            refresh: self.refresh@,
        }
    }
}

/// The popover's whole content: backdrop, header, divider, list region and
/// footer, each framed inside the content area.
pub struct ViewTree {
    pub frame: Rect,
    pub backdrop: BackdropView,
    pub header: LabelView,
    pub divider: Rect,
    pub list: ListRegionView,
    pub footer: FooterView,
}

/// The ghost counterpart of [`ViewTree`].
pub ghost struct TreeModel {
    pub frame: RectModel,
    pub backdrop: BackdropModel,
    pub header: LabelModel,
    pub divider: RectModel,
    pub list: ListRegionModel,
    pub footer: FooterModel,
}

impl View for ViewTree {
    type V = TreeModel;

    open spec fn view(&self) -> TreeModel {
        TreeModel {
            frame: self.frame@,
            backdrop: self.backdrop@,
            header: self.header@,
            divider: self.divider@,
            list: self.list@,
            footer: self.footer@,
        }
    }
}

/// Where the top of the row stack sits in the list document's local space:
/// the document's full height.
pub open spec fn spec_list_top(height: int) -> int {
    height - CHROME_HEIGHT
}

/// Row `i`'s frame, glyph, label and indicator, given the top of the row
/// stack, the row width, and the row's descriptor. The row's vertical offset
/// is `list_top - (i + 1) * ROW_HEIGHT`: the first row is nearest the top.
pub open spec fn spec_row_view(i: int, list_top: int, row_w: int, r: RowModel) -> RowViewModel {
    RowViewModel {
        frame: RectModel { x: 0, y: list_top - (i + 1) * ROW_HEIGHT, w: row_w, h: ROW_HEIGHT as int },
        glyph: GlyphModel {
            frame: RectModel { x: 10, y: 10, w: 20, h: 20 },
            symbol: r.icon_symbol,
        },
        label: LabelModel {
            frame: RectModel { x: 35, y: 10, w: 250, h: 20 },
            text: r.label_text,
            font_size: 14,
            bold: false,
        },
        indicator: IndicatorModel {
            frame: RectModel { x: 320, y: 10, w: 20, h: 20 },
            color: spec_severity_color(r.severity),
            corner_radius: 10,
        },
    }
}

/// The view tree built from a content area `width` by `height` and a row
/// list. This pins every part of the tree, so two builds from identical
/// inputs are structurally identical.
pub open spec fn spec_view_tree(width: int, height: int, rows: Seq<RowModel>) -> TreeModel {
    let inner_w = width - 2 * MARGIN;
    let list_h = height - CHROME_HEIGHT;
    TreeModel {
        frame: RectModel { x: 0, y: 0, w: width, h: height },
        backdrop: BackdropModel {
            frame: RectModel { x: 0, y: 0, w: width, h: height },
            material: 6,
            blending: 0,
            state: 1,
        },
        header: LabelModel {
            frame: RectModel { x: MARGIN as int, y: height - 40, w: inner_w, h: 30 },
            text: "Security Status"@,
            font_size: 16,
            bold: true,
        },
        divider: RectModel { x: MARGIN as int, y: height - 50, w: inner_w, h: 1 },
        list: ListRegionModel {
            frame: RectModel { x: MARGIN as int, y: 100, w: inner_w, h: list_h },
            doc_frame: RectModel { x: 0, y: 0, w: inner_w, h: list_h },
            rows: Seq::new(rows.len(), |i: int| spec_row_view(i, list_h, inner_w, rows[i])),
        },
        footer: FooterModel {
            frame: RectModel { x: MARGIN as int, y: MARGIN as int, w: inner_w, h: 60 },
            logo: GlyphModel { frame: RectModel { x: 10, y: 20, w: 40, h: 40 }, symbol: "sparkles"@ },
            version: LabelModel {
                frame: RectModel { x: 60, y: 30, w: 100, h: 20 },
                text: "v4.7.5"@,
                font_size: 12,
                bold: false,
            },
            refresh: ButtonModel {
                frame: RectModel { x: 320, y: 20, w: 60, h: 30 },
                title: "Refresh"@,
            },
        },
    }
}

/// Builds one row of the list.
fn build_row(i: usize, list_top: i64, row_w: i64, r: &RowDescriptor) -> (row: RowView)
    requires
        i < MAX_ROWS,
        -2 * MAX_EXTENT <= list_top <= 2 * MAX_EXTENT,
        -2 * MAX_EXTENT <= row_w <= 2 * MAX_EXTENT,
    ensures
        row@ == spec_row_view(i as int, list_top as int, row_w as int, r@),
{
    let y = list_top - (i as i64 + 1) * ROW_HEIGHT;
    RowView {
        frame: Rect::new(0, y, row_w, ROW_HEIGHT),
        glyph: GlyphView {
            frame: Rect::new(10, 10, 20, 20),
            symbol: String::from_str(r.icon_symbol.as_str()),
        },
        label: LabelView {
            frame: Rect::new(35, 10, 250, 20),
            text: String::from_str(r.label_text.as_str()),
            font_size: 14,
            bold: false,
        },
        indicator: IndicatorView {
            frame: Rect::new(320, 10, 20, 20),
            color: severity_color(r.severity),
            corner_radius: 10,
        },
    }
}

/// Builds the popover's complete view tree from the content size and the row
/// list. Pure and deterministic: the result equals [`spec_view_tree`] on the
/// inputs, and the returned tree shares nothing with the arguments or with
/// any earlier build.
pub fn build_view_tree(width: i64, height: i64, rows: &Vec<RowDescriptor>) -> (t: ViewTree)
    requires
        -MAX_EXTENT <= width <= MAX_EXTENT,
        -MAX_EXTENT <= height <= MAX_EXTENT,
        rows@.len() <= MAX_ROWS,
    ensures
        t@ == spec_view_tree(width as int, height as int, rows_view(rows@)),
{
    let inner_w = width - 2 * MARGIN;
    let list_h = height - CHROME_HEIGHT;

    let mut built: Vec<RowView> = Vec::new();
    let ghost target = spec_view_tree(width as int, height as int, rows_view(rows@)).list.rows;
    let mut i: usize = 0;
    while i < rows.len()
        invariant
            i <= rows@.len(),
            rows@.len() <= MAX_ROWS,
            -MAX_EXTENT <= width <= MAX_EXTENT,
            -MAX_EXTENT <= height <= MAX_EXTENT,
            inner_w == width - 2 * MARGIN,
            list_h == height - CHROME_HEIGHT,
            target == spec_view_tree(
                width as int,
                height as int,
                rows_view(rows@),
            ).list.rows,
            built@.len() == i,
            forall|k: int| 0 <= k < i ==> built@[k]@ == target[k],
        decreases rows@.len() - i,
    {
        let row = build_row(i, list_h, inner_w, &rows[i]);
        built.push(row);
        i = i + 1;
    }

    let t = ViewTree {
        frame: Rect::new(0, 0, width, height),
        backdrop: BackdropView {
            frame: Rect::new(0, 0, width, height),
            material: 6,
            blending: 0,
            state: 1,
        },
        header: LabelView {
            frame: Rect::new(MARGIN, height - 40, inner_w, 30),
            text: String::from_str("Security Status"),
            font_size: 16,
            bold: true,
        },
        divider: Rect::new(MARGIN, height - 50, inner_w, 1),
        list: ListRegionView {
            frame: Rect::new(MARGIN, 100, inner_w, list_h),
            doc_frame: Rect::new(0, 0, inner_w, list_h),
            rows: built,
        },
        footer: FooterView {
            frame: Rect::new(MARGIN, MARGIN, inner_w, 60),
            logo: GlyphView { frame: Rect::new(10, 20, 40, 40), symbol: String::from_str("sparkles") },
            version: LabelView {
                frame: Rect::new(60, 30, 100, 20),
                text: String::from_str("v4.7.5"),
                font_size: 12,
                bold: false,
            },
            refresh: ButtonView {
                frame: Rect::new(320, 20, 60, 30),
                title: String::from_str("Refresh"),
            },
        },
    };
    proof {
        assert(t@.list.rows =~= target);
        assert(t@ =~= spec_view_tree(width as int, height as int, rows_view(rows@)));
    }
    t
}

/// Law: within the built tree, row `i` sits at vertical offset
/// `list_top - (i + 1) * ROW_HEIGHT` in the list document's local space,
/// where `list_top` is the document height. Identical inputs yield identical
/// offsets on every rebuild, since the whole tree is a function of the
/// inputs.
pub proof fn lemma_row_offset(width: int, height: int, rows: Seq<RowModel>, i: int)
    requires
        0 <= i < rows.len(),
    ensures
        spec_view_tree(width, height, rows).list.rows[i].frame.y == spec_list_top(height) - (i + 1)
            * ROW_HEIGHT,
        spec_view_tree(width, height, rows).list.rows.len() == rows.len(),
{
}

/// Law: rows stack top-down — an earlier row sits strictly above a later
/// one, so the first row is nearest the top of the list region.
pub proof fn lemma_rows_stack_top_down(
    width: int,
    height: int,
    rows: Seq<RowModel>,
    i: int,
    j: int,
)
    requires
        0 <= i < j < rows.len(),
    ensures
        spec_view_tree(width, height, rows).list.rows[i].frame.y > spec_view_tree(
            width,
            height,
            rows,
        ).list.rows[j].frame.y,
{
}

/// Law: the builder is deterministic — two trees that both satisfy the
/// builder's contract for the same inputs are structurally equal.
pub proof fn lemma_build_deterministic(
    t1: ViewTree,
    t2: ViewTree,
    width: int,
    height: int,
    rows: Seq<RowModel>,
)
    requires
        t1@ == spec_view_tree(width, height, rows),
        t2@ == spec_view_tree(width, height, rows),
    ensures
        t1@ == t2@,
{
}

/// `t` with row `i`'s label text replaced by `text` and everything else —
/// every frame, every other row, every other part — unchanged.
pub open spec fn spec_with_row_label(t: TreeModel, i: int, text: Seq<char>) -> TreeModel {
    TreeModel {
        list: ListRegionModel {
            rows: t.list.rows.update(
                i,
                RowViewModel {
                    label: LabelModel { text: text, ..t.list.rows[i].label },
                    ..t.list.rows[i]
                },
            ),
            ..t.list
        },
        ..t
    }
}

/// Law: two builder calls with identical inputs produce independently
/// mutable trees. The first tree is edited; the second still equals the
/// pristine model of the inputs — no structure is shared between builds.
pub fn build_two_edit_one(
    width: i64,
    height: i64,
    rows: &Vec<RowDescriptor>,
    i: usize,
    text: String,
) -> (pair: (ViewTree, ViewTree))
    requires
        -MAX_EXTENT <= width <= MAX_EXTENT,
        -MAX_EXTENT <= height <= MAX_EXTENT,
        rows@.len() <= MAX_ROWS,
        i < rows@.len(),
    ensures
        pair.0@ == spec_with_row_label(
            spec_view_tree(width as int, height as int, rows_view(rows@)),
            i as int,
            text@,
        ),
        pair.1@ == spec_view_tree(width as int, height as int, rows_view(rows@)),
{
    let mut first = build_view_tree(width, height, rows);
    let second = build_view_tree(width, height, rows);
    proof {
        assert(first.list.rows@.len() == first@.list.rows.len());
        assert(first@.list.rows.len() == rows_view(rows@).len());
        assert(rows_view(rows@).len() == rows@.len());
    }
    first.set_row_label(i, text);
    (first, second)
}

impl ViewTree {
    /// Replaces row `i`'s label text. The rest of this tree is untouched, and
    /// so is any other tree — in particular one built from the same inputs,
    /// since builds share no structure.
    pub fn set_row_label(&mut self, i: usize, text: String)
        requires
            i < old(self).list.rows@.len(),
        ensures
            final(self)@ == spec_with_row_label(old(self)@, i as int, text@),
    {
        let mut row = self.list.rows.remove(i);
        row.label.text = text;
        self.list.rows.insert(i, row);
        proof {
            assert(self@.list.rows =~= spec_with_row_label(old(self)@, i as int, text@).list.rows);
            assert(self@ =~= spec_with_row_label(old(self)@, i as int, text@));
        }
    }
}

} // verus!
