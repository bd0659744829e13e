//! Rectangles and anchor edges in the toolkit's coordinate space.
//!
//! The host toolkit places views with a bottom-left origin: the vertical
//! coordinate grows upward, so a row "near the top" of a region has a large
//! `y`. All coordinates are whole units.

use vstd::prelude::*;

verus! {

/// An axis-aligned rectangle: origin `(x, y)` at its bottom-left corner,
/// extent `(w, h)`.
#[derive(Clone, Copy, PartialEq, Eq, Structural, Debug)]
pub struct Rect {
    pub x: i64,
    pub y: i64,
    pub w: i64,
    pub h: i64,
}

impl Rect {
    /// Builds the rectangle with the given origin and extent.
    pub fn new(x: i64, y: i64, w: i64, h: i64) -> (r: Rect)
        ensures
            r == (Rect { x, y, w, h }),
    {
        Rect { x, y, w, h }
    }
}

/// The ghost counterpart of [`Rect`], with unbounded coordinates, in which
/// layout arithmetic is stated.
pub ghost struct RectModel {
    pub x: int,
    pub y: int,
    pub w: int,
    pub h: int,
}

impl View for Rect {
    type V = RectModel;

    open spec fn view(&self) -> RectModel {
        RectModel { x: self.x as int, y: self.y as int, w: self.w as int, h: self.h as int }
    }
}

/// The edge of an anchor rectangle off which a popover surface is presented.
#[derive(Clone, Copy, PartialEq, Eq, Structural, Debug)]
pub enum AnchorEdge {
    /// The left (minimum-x) edge.
    Leading,
    /// The bottom (minimum-y) edge: the surface hangs below the anchor.
    Below,
    /// The right (maximum-x) edge.
    Trailing,
    /// The top (maximum-y) edge.
    Above,
}

/// The number under which the host toolkit's popover interface knows each
/// edge.
pub open spec fn spec_edge_code(e: AnchorEdge) -> u64 {
    match e {
        AnchorEdge::Leading => 0,
        AnchorEdge::Below => 1,
        AnchorEdge::Trailing => 2,
        AnchorEdge::Above => 3,
    }
}

/// Converts an edge to the toolkit's numbering, for the binding layer that
/// forwards a show request to the host shell.
pub fn edge_code(e: AnchorEdge) -> (c: u64)
    ensures
        c == spec_edge_code(e),
{
    match e {
        AnchorEdge::Leading => 0,
        AnchorEdge::Below => 1,
        AnchorEdge::Trailing => 2,
        AnchorEdge::Above => 3,
    }
}

} // verus!
