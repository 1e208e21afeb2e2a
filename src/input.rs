//! Decides, from one input sample's pointer signals, which camera updates
//! apply and in which order.
use vstd::prelude::*;

verus! {

/// The pointer signals of one input sample that steer the camera.
#[derive(Clone, Copy, Debug, PartialEq, Eq, Structural)]
pub struct PointerSignals {
    /// The primary button drags over the view.
    pub primary_dragged: bool,
    /// The secondary button drags over the view.
    pub secondary_dragged: bool,
    /// The pan modifier is the only modifier held.
    pub pan_modifier: bool,
    /// The pointer hovers the view.
    pub hovered: bool,
    /// The scroll delta of the sample is not zero.
    pub scrolled: bool,
}

/// One update of the camera, driven by the sample's drag or scroll delta.
#[derive(Clone, Copy, Debug, PartialEq, Eq, Structural)]
pub enum CameraAction {
    /// Move the pivot in the view plane by the drag delta.
    Pan,
    /// Turn yaw and pitch by the drag delta.
    Pivot,
    /// Change the orbit distance by the scroll delta.
    Zoom,
}

/// `a` once when `cond` holds, else nothing.
pub open spec fn step_if(cond: bool, a: CameraAction) -> Seq<CameraAction> {
    if cond {
        seq![a]
    } else {
        seq![]
    }
}

/// The primary drag pans when the pan modifier is held.
pub open spec fn primary_pans(s: PointerSignals) -> bool {
    s.primary_dragged && s.pan_modifier
}

/// The primary drag pivots when the pan modifier is not held.
pub open spec fn primary_pivots(s: PointerSignals) -> bool {
    s.primary_dragged && !s.pan_modifier
}

/// A scroll over the view zooms.
pub open spec fn zooms(s: PointerSignals) -> bool {
    s.hovered && s.scrolled
}

/// The updates of one sample, in the order they are applied: pans first, so
/// that they read the orientation from before this sample's pivot, then the
/// pivot, then the zoom.
pub open spec fn actions_of(s: PointerSignals) -> Seq<CameraAction> {
    step_if(primary_pans(s), CameraAction::Pan)
        + step_if(s.secondary_dragged, CameraAction::Pan)
        + step_if(primary_pivots(s), CameraAction::Pivot)
        + step_if(zooms(s), CameraAction::Zoom)
}

/// Returns the camera updates that one input sample calls for, in the order
/// in which they are to be applied.
pub fn camera_actions(signals: PointerSignals) -> (r: Vec<CameraAction>)
    ensures
        r@ == actions_of(signals),
{
    let mut r: Vec<CameraAction> = Vec::new();
    if signals.primary_dragged && signals.pan_modifier {
        r.push(CameraAction::Pan);
    }
    if signals.secondary_dragged {
        r.push(CameraAction::Pan);
    }
    if signals.primary_dragged && !signals.pan_modifier {
        r.push(CameraAction::Pivot);
    }
    if signals.hovered && signals.scrolled {
        r.push(CameraAction::Zoom);
    }
    r
}

/// Every pan of a sample is applied before its pivot and its zoom, so a pan
/// reads the orientation and distance that the camera had when the sample
/// came in.
pub proof fn lemma_pans_come_first(s: PointerSignals)
    ensures
        forall|i: int, j: int|
            0 <= i < actions_of(s).len() && 0 <= j < actions_of(s).len() && actions_of(s)[j]
                == CameraAction::Pan && actions_of(s)[i] != CameraAction::Pan ==> j < i,
{
}

/// A sample pivots at most once and zooms at most once, and a zoom is the
/// last update applied.
pub proof fn lemma_single_pivot_and_zoom(s: PointerSignals)
    ensures
        forall|i: int, j: int|
            0 <= i < j < actions_of(s).len() ==> actions_of(s)[i] != CameraAction::Zoom
                && !(actions_of(s)[i] == CameraAction::Pivot && actions_of(s)[j]
                == CameraAction::Pivot),
{
}

} // verus!
