//! The popover visibility state machine.
//!
//! A single popover surface is either hidden or shown anchored to a control.
//! Clicks on the status item are the only driver the coordinator recognises;
//! in addition the toolkit may dismiss the surface autonomously (for example
//! on an outside click) without calling back into the coordinator. The
//! correctness rule of this component: every click decision is taken against
//! the *live* visibility state, freshly re-read, never against a value cached
//! from an earlier invocation — otherwise a click after an autonomous
//! dismissal would be misread as a close instead of a re-show.
//!
//! [`toggle_decision`] is the pure decision: live state and anchor in,
//! requested surface operation out. The binding layer re-reads the real
//! surface's visibility, calls it, and performs the returned request.
//! [`ToggleCoordinator`] packages the same decision together with a model of
//! the surface, on which the toggle laws are stated and proved.

use vstd::prelude::*;

use crate::geometry::{AnchorEdge, Rect};

verus! {

/// How a shown surface is attached: the anchor rectangle of the triggering
/// control and the preferred presentation edge.
#[derive(Clone, Copy, PartialEq, Eq, Structural, Debug)]
pub struct Attachment {
    pub anchor: Rect,
    pub edge: AnchorEdge,
}

/// The operation the coordinator asks of the toolkit after a click.
#[derive(Clone, Copy, PartialEq, Eq, Structural, Debug)]
pub enum SurfaceRequest {
    /// Present the surface anchored to `anchor`, off the given edge.
    Show { anchor: Rect, edge: AnchorEdge },
    /// Explicitly close the surface.
    Close,
}

/// The popover surface's visibility state, as the toolkit reports it: hidden,
/// or shown with its attachment.
///
/// Exactly one such surface exists per process; the toolkit owns the real
/// one, and this value tracks it. Autonomous dismissal is modelled by
/// [`PopoverSurface::dismiss_autonomously`], which the binding layer is free
/// to apply at any point between clicks.
pub struct PopoverSurface {
    /// `Some` while the surface is shown.
    pub attachment: Option<Attachment>,
}

/// Whether the surface is shown.
pub open spec fn spec_is_shown(s: PopoverSurface) -> bool {
    s.attachment is Some
}

/// The request a click produces, given the live visibility state it read:
/// shown means close, hidden means show anchored below the clicked control.
pub open spec fn spec_toggle_request(live_shown: bool, anchor: Rect) -> SurfaceRequest {
    if live_shown {
        SurfaceRequest::Close
    } else {
        SurfaceRequest::Show { anchor, edge: AnchorEdge::Below }
    }
}

/// The surface after a request is performed on it.
pub open spec fn spec_apply(s: PopoverSurface, req: SurfaceRequest) -> PopoverSurface {
    match req {
        SurfaceRequest::Show { anchor, edge } => PopoverSurface {
            attachment: Some(Attachment { anchor, edge }),
        },
        SurfaceRequest::Close => PopoverSurface { attachment: None },
    }
}

/// The surface after one full click round: live state read, decision taken,
/// request performed.
pub open spec fn spec_after_click(s: PopoverSurface, anchor: Rect) -> PopoverSurface {
    spec_apply(s, spec_toggle_request(spec_is_shown(s), anchor))
}

/// The surface after the toolkit dismisses it autonomously.
pub open spec fn spec_after_dismissal(s: PopoverSurface) -> PopoverSurface {
    PopoverSurface { attachment: None }
}

/// Decides what a click does, from the *live* visibility flag just re-read
/// from the surface: a shown surface is asked to close, a hidden one to show
/// anchored to the clicked control's bounds with preferred edge below.
pub fn toggle_decision(live_shown: bool, anchor: Rect) -> (req: SurfaceRequest)
    ensures
        req == spec_toggle_request(live_shown, anchor),
{
    if live_shown {
        SurfaceRequest::Close
    } else {
        SurfaceRequest::Show { anchor, edge: AnchorEdge::Below }
    }
}

impl PopoverSurface {
    /// A surface that starts hidden, as built at startup.
    pub fn new_hidden() -> (s: PopoverSurface)
        ensures
            s.attachment is None,
    {
        PopoverSurface { attachment: None }
    }

    /// Re-reads the live visibility flag. Callers must take their decision
    /// from this call's result, never from a cached copy.
    pub fn is_shown(&self) -> (b: bool)
        ensures
            b == spec_is_shown(*self),
    {
        self.attachment.is_some()
    }

    /// Presents the surface anchored to `anchor`, preferred edge below.
    pub fn show_anchored(&mut self, anchor: Rect)
        ensures
            final(self).attachment == Some(Attachment { anchor, edge: AnchorEdge::Below }),
    {
        self.attachment = Some(Attachment { anchor, edge: AnchorEdge::Below });
    }

    /// Explicitly closes the surface.
    pub fn close(&mut self)
        ensures
            final(self).attachment is None,
    {
        self.attachment = None;
    }

    /// The toolkit dismisses the surface on its own — an outside click, for
    /// example — without telling the coordinator.
    pub fn dismiss_autonomously(&mut self)
        ensures
            *final(self) == spec_after_dismissal(*old(self)),
    {
        self.attachment = None;
    }
}

/// Owns the popover surface and drives its visibility from click events.
pub struct ToggleCoordinator {
    pub surface: PopoverSurface,
}

impl ToggleCoordinator {
    /// A coordinator over a freshly built, hidden surface.
    pub fn new() -> (c: ToggleCoordinator)
        ensures
            !spec_is_shown(c.surface),
    {
        ToggleCoordinator { surface: PopoverSurface::new_hidden() }
    }

    /// Handles one click on the status item: re-reads the live visibility
    /// state, decides, and performs the decision on the surface. Returns the
    /// request so the binding layer can mirror it onto the real surface.
    pub fn toggle(&mut self, anchor: Rect) -> (req: SurfaceRequest)
        ensures
            req == spec_toggle_request(spec_is_shown(old(self).surface), anchor),
            final(self).surface == spec_after_click(old(self).surface, anchor),
    {
        let live_shown = self.surface.is_shown();
        let req = toggle_decision(live_shown, anchor);
        match req {
            SurfaceRequest::Show { anchor, edge: _ } => self.surface.show_anchored(anchor),
            SurfaceRequest::Close => self.surface.close(),
        }
        req
    }

    /// The toolkit dismissed the surface behind the coordinator's back.
    pub fn note_autonomous_dismissal(&mut self)
        ensures
            final(self).surface == spec_after_dismissal(old(self).surface),
    {
        self.surface.dismiss_autonomously();
    }
}

/// Law: with no autonomous dismissal in between, two consecutive clicks
/// return the surface to its original visibility — starting hidden the
/// surface shows then hides again, starting shown it hides then shows.
pub proof fn lemma_toggle_involution(s: PopoverSurface, a1: Rect, a2: Rect)
    ensures
        spec_is_shown(spec_after_click(spec_after_click(s, a1), a2)) == spec_is_shown(s),
        !spec_is_shown(s) ==> spec_is_shown(spec_after_click(s, a1)),
{
}

/// Law: if the surface is shown and the toolkit dismisses it autonomously,
/// the next click re-shows it — anchored to the clicked control — and never
/// asks for a redundant close. This holds because the decision re-reads the
/// live state; a decision taken from the stale cached flag (still "shown")
/// would wrongly ask for a close.
pub proof fn lemma_click_after_dismissal_reshows(s: PopoverSurface, anchor: Rect)
    requires
        spec_is_shown(s),
    ensures
        spec_toggle_request(spec_is_shown(spec_after_dismissal(s)), anchor) == (
        SurfaceRequest::Show { anchor, edge: AnchorEdge::Below }),
        spec_is_shown(spec_after_click(spec_after_dismissal(s), anchor)),
{
}

} // verus!
