use status_popover::layout::{build_view_tree, build_two_edit_one, CHROME_HEIGHT, MARGIN, ROW_HEIGHT};
use status_popover::rows::{default_rows, severity_color, IndicatorColor, RowDescriptor, Severity};

#[test]
fn four_row_offsets() {
    // Content 420 x 400 leaves a list region 240 high, so the row stack's top
    // sits at 240 in the document's local space; with four rows of height 40
    // the offsets step down by 40 per row and the bottom two 40-unit slots
    // stay empty.
    let rows = default_rows();
    let t = build_view_tree(420, 400, &rows);
    assert_eq!(t.list.frame.h, 240);
    assert_eq!(t.list.doc_frame.h, 240);
    assert_eq!(t.list.rows.len(), 4);
    let offsets: Vec<i64> = t.list.rows.iter().map(|r| r.frame.y).collect();
    assert_eq!(offsets, vec![200, 160, 120, 80]);
    for (i, r) in t.list.rows.iter().enumerate() {
        assert_eq!(r.frame.y, 240 - (i as i64 + 1) * ROW_HEIGHT);
        assert_eq!(r.frame.h, ROW_HEIGHT);
        // No row reaches the empty band at the bottom of the region.
        assert!(r.frame.y >= 80);
    }
}

#[test]
fn rebuild_offsets_identical() {
    // Identical inputs across rebuilds yield identical offsets and frames.
    let rows = default_rows();
    let a = build_view_tree(420, 400, &rows);
    let b = build_view_tree(420, 400, &rows);
    assert_eq!(a.list.rows.len(), b.list.rows.len());
    for (ra, rb) in a.list.rows.iter().zip(b.list.rows.iter()) {
        assert_eq!(ra.frame, rb.frame);
        assert_eq!(ra.label.text, rb.label.text);
        assert_eq!(ra.glyph.symbol, rb.glyph.symbol);
        assert_eq!(ra.indicator.color, rb.indicator.color);
    }
    assert_eq!(a.header.frame, b.header.frame);
    assert_eq!(a.header.text, b.header.text);
    assert_eq!(a.divider, b.divider);
    assert_eq!(a.footer.frame, b.footer.frame);
}

#[test]
fn tree_non_aliasing() {
    // Two builder calls with identical inputs produce independently mutable
    // trees: editing one never affects the other.
    let rows = default_rows();
    let (edited, pristine) = build_two_edit_one(420, 400, &rows, 0, String::from("changed"));
    assert_eq!(edited.list.rows[0].label.text, "changed");
    assert_eq!(pristine.list.rows[0].label.text, "Menu Item 1");
    let again = build_view_tree(420, 400, &rows);
    assert_eq!(pristine.list.rows[0].label.text, again.list.rows[0].label.text);
    assert_eq!(pristine.list.rows[0].frame, again.list.rows[0].frame);
    // Only the one label changed in the edited tree.
    assert_eq!(edited.list.rows[0].frame, pristine.list.rows[0].frame);
    assert_eq!(edited.list.rows[1].label.text, pristine.list.rows[1].label.text);
}

#[test]
fn set_row_label_touches_one_row() {
    let rows = default_rows();
    let mut t = build_view_tree(420, 400, &rows);
    t.set_row_label(2, String::from("renamed"));
    assert_eq!(t.list.rows[0].label.text, "Menu Item 1");
    assert_eq!(t.list.rows[1].label.text, "Menu Item 2");
    assert_eq!(t.list.rows[2].label.text, "renamed");
    assert_eq!(t.list.rows[3].label.text, "Menu Item 4");
    assert_eq!(t.list.rows[2].glyph.symbol, "checkmark.circle");
}

#[test]
fn builder_chrome() {
    let rows = default_rows();
    let t = build_view_tree(420, 400, &rows);
    assert_eq!((t.frame.x, t.frame.y, t.frame.w, t.frame.h), (0, 0, 420, 400));
    assert_eq!(t.backdrop.frame, t.frame);
    assert_eq!(t.backdrop.material, 6);
    assert_eq!(t.backdrop.blending, 0);
    assert_eq!(t.backdrop.state, 1);
    assert_eq!(t.header.text, "Security Status");
    assert_eq!(t.header.font_size, 16);
    assert!(t.header.bold);
    assert_eq!(
        (t.header.frame.x, t.header.frame.y, t.header.frame.w, t.header.frame.h),
        (12, 360, 396, 30)
    );
    assert_eq!((t.divider.x, t.divider.y, t.divider.w, t.divider.h), (12, 350, 396, 1));
    assert_eq!(
        (t.list.frame.x, t.list.frame.y, t.list.frame.w, t.list.frame.h),
        (12, 100, 396, 240)
    );
    assert_eq!(
        (t.footer.frame.x, t.footer.frame.y, t.footer.frame.w, t.footer.frame.h),
        (12, 12, 396, 60)
    );
    assert_eq!(t.footer.logo.symbol, "sparkles");
    assert_eq!(
        (t.footer.logo.frame.x, t.footer.logo.frame.y, t.footer.logo.frame.w, t.footer.logo.frame.h),
        (10, 20, 40, 40)
    );
    assert_eq!(t.footer.version.text, "v4.7.5");
    assert_eq!(t.footer.version.font_size, 12);
    assert_eq!(t.footer.refresh.title, "Refresh");
    assert_eq!(
        (t.footer.refresh.frame.x, t.footer.refresh.frame.y),
        (320, 20)
    );
    assert_eq!(MARGIN, 12);
    assert_eq!(CHROME_HEIGHT, 160);
}

#[test]
fn row_composition() {
    let rows = default_rows();
    let t = build_view_tree(420, 400, &rows);
    let r = &t.list.rows[1];
    assert_eq!(r.glyph.symbol, "exclamationmark.circle");
    assert_eq!(
        (r.glyph.frame.x, r.glyph.frame.y, r.glyph.frame.w, r.glyph.frame.h),
        (10, 10, 20, 20)
    );
    assert_eq!(r.label.text, "Menu Item 2");
    assert_eq!(r.label.font_size, 14);
    assert!(!r.label.bold);
    assert_eq!(
        (r.label.frame.x, r.label.frame.y, r.label.frame.w, r.label.frame.h),
        (35, 10, 250, 20)
    );
    assert_eq!(r.indicator.color, IndicatorColor::Green);
    assert_eq!(r.indicator.corner_radius, 10);
    assert_eq!(
        (r.indicator.frame.x, r.indicator.frame.y, r.indicator.frame.w, r.indicator.frame.h),
        (320, 10, 20, 20)
    );
    assert_eq!((r.frame.x, r.frame.w), (0, 396));
}

#[test]
fn severity_colors_are_total() {
    assert_eq!(severity_color(Severity::Okay), IndicatorColor::Green);
    assert_eq!(severity_color(Severity::Warn), IndicatorColor::Yellow);
    assert_eq!(severity_color(Severity::Error), IndicatorColor::Red);
    assert_eq!(severity_color(Severity::Unknown), IndicatorColor::Gray);
}

#[test]
fn non_okay_severity_colours_indicator() {
    let rows = vec![
        RowDescriptor {
            icon_symbol: String::from("doc.text"),
            label_text: String::from("A"),
            severity: Severity::Error,
        },
        RowDescriptor {
            icon_symbol: String::from("questionmark"),
            label_text: String::from("B"),
            severity: Severity::Unknown,
        },
    ];
    let t = build_view_tree(420, 400, &rows);
    assert_eq!(t.list.rows[0].indicator.color, IndicatorColor::Red);
    assert_eq!(t.list.rows[1].indicator.color, IndicatorColor::Gray);
}

#[test]
fn empty_row_list_builds() {
    let rows: Vec<RowDescriptor> = Vec::new();
    let t = build_view_tree(420, 400, &rows);
    assert!(t.list.rows.is_empty());
    assert_eq!(t.header.text, "Security Status");
}

#[test]
fn default_rows_contents() {
    let rows = default_rows();
    assert_eq!(rows.len(), 4);
    let icons: Vec<&str> = rows.iter().map(|r| r.icon_symbol.as_str()).collect();
    assert_eq!(
        icons,
        vec!["doc.text", "exclamationmark.circle", "checkmark.circle", "questionmark"]
    );
    let labels: Vec<&str> = rows.iter().map(|r| r.label_text.as_str()).collect();
    assert_eq!(labels, vec!["Menu Item 1", "Menu Item 2", "Menu Item 3", "Menu Item 4"]);
    assert!(rows.iter().all(|r| r.severity == Severity::Okay));
}
