//! The drawing policy of projected primitives: a primitive is drawn with all
//! its projected points, or, when any point falls outside the visible depth
//! range, not at all. Nothing is clipped.
use vstd::prelude::*;

verus! {

/// Whether every point of `points` is visible.
pub open spec fn all_visible<T>(points: Seq<Option<T>>) -> bool {
    forall|i: int| 0 <= i < points.len() ==> points[i] is Some
}

/// Combines the projections of a primitive's points: all projected points, in
/// order, when every one is visible; nothing when any is not.
pub fn visible_points<T: Copy>(points: &Vec<Option<T>>) -> (r: Option<Vec<T>>)
    ensures
        r is Some <==> all_visible(points@),
        r matches Option::Some(v) ==> v@.len() == points@.len() && forall|i: int|
            0 <= i < points@.len() ==> points@[i] == Option::Some(v@[i]),
{
    let mut out: Vec<T> = Vec::new();
    let mut i: usize = 0;
    while i < points.len()
        invariant
            i <= points@.len(),
            out@.len() == i,
            forall|k: int| 0 <= k < i ==> points@[k] == Option::Some(out@[k]),
        decreases points@.len() - i,
    {
        match points[i] {
            Some(p) => out.push(p),
            None => {
                return None;
            },
        }
        i = i + 1;
    }
    Some(out)
}

} // verus!
