use status_popover::geometry::{edge_code, AnchorEdge, Rect};
use status_popover::toggle::{toggle_decision, Attachment, PopoverSurface, SurfaceRequest, ToggleCoordinator};

#[test]
fn toggle_involution() {
    // Starting hidden, two consecutive clicks with no autonomous dismissal in
    // between return the surface to its original state.
    let mut c = ToggleCoordinator::new();
    assert!(!c.surface.is_shown());
    let b = Rect::new(0, 0, 30, 22);
    c.toggle(b);
    assert!(c.surface.is_shown());
    c.toggle(b);
    assert!(!c.surface.is_shown());
    c.toggle(b);
    assert!(c.surface.is_shown());
}

#[test]
fn single_click_anchors_below() {
    // Surface hidden, a single click with bounds B: the surface is shown
    // anchored to B with preferred edge below, and is_shown reports true.
    let mut c = ToggleCoordinator::new();
    let b = Rect::new(5, 6, 7, 8);
    let req = c.toggle(b);
    assert_eq!(
        req,
        SurfaceRequest::Show {
            anchor: b,
            edge: AnchorEdge::Below
        }
    );
    assert!(c.surface.is_shown());
    assert_eq!(
        c.surface.attachment,
        Some(Attachment {
            anchor: b,
            edge: AnchorEdge::Below
        })
    );
}

#[test]
fn repeat_click_closes() {
    let mut c = ToggleCoordinator::new();
    let b = Rect::new(1, 2, 3, 4);
    c.toggle(b);
    let req = c.toggle(b);
    assert_eq!(req, SurfaceRequest::Close);
    assert!(!c.surface.is_shown());
    assert_eq!(c.surface.attachment, None);
}

#[test]
fn dismissal_then_click_reshows() {
    // Shown, then the toolkit dismisses autonomously: the next click must
    // re-show, never ask for a redundant close.
    let mut c = ToggleCoordinator::new();
    let b1 = Rect::new(1, 1, 10, 10);
    c.toggle(b1);
    assert!(c.surface.is_shown());
    c.note_autonomous_dismissal();
    assert!(!c.surface.is_shown());
    let b2 = Rect::new(2, 2, 20, 20);
    let req = c.toggle(b2);
    assert_eq!(
        req,
        SurfaceRequest::Show {
            anchor: b2,
            edge: AnchorEdge::Below
        }
    );
    assert!(c.surface.is_shown());
}

#[test]
fn decision_from_live_flag() {
    let b = Rect::new(9, 9, 9, 9);
    assert_eq!(toggle_decision(true, b), SurfaceRequest::Close);
    assert_eq!(
        toggle_decision(false, b),
        SurfaceRequest::Show {
            anchor: b,
            edge: AnchorEdge::Below
        }
    );
}

#[test]
fn surface_starts_hidden() {
    let s = PopoverSurface::new_hidden();
    assert!(!s.is_shown());
    assert_eq!(s.attachment, None);
}

#[test]
fn edge_codes_match_toolkit_numbering() {
    assert_eq!(edge_code(AnchorEdge::Leading), 0);
    assert_eq!(edge_code(AnchorEdge::Below), 1);
    assert_eq!(edge_code(AnchorEdge::Trailing), 2);
    assert_eq!(edge_code(AnchorEdge::Above), 3);
}
