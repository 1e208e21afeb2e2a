//! Layout of the reference grid on the ground plane: `2k + 1` lines along
//! each horizontal axis spanning the square from `-1` to `1`, at every
//! multiple of `1/k`. Coordinates are exact lattice values in units of `1/k`;
//! the drawing side scales them into world units.
use vstd::prelude::*;

verus! {

/// A grid line on the ground plane, from `(x0, z0)` to `(x1, z1)`, with
/// coordinates in units of `1/k` for a grid of `k` divisions.
#[derive(Clone, Copy, Debug, PartialEq, Eq, Structural)]
pub struct GridLine {
    pub x0: i64,
    pub z0: i64,
    pub x1: i64,
    pub z1: i64,
}

/// The line at `index` of a grid of `k` divisions: even indices run along x
/// at `z = index / 2 - k`, odd ones along z at `x = (index - 1) / 2 - k`.
pub open spec fn grid_line(k: int, index: int) -> GridLine {
    let offset = index / 2 - k;
    if index % 2 == 0 {
        GridLine { x0: -k as i64, z0: offset as i64, x1: k as i64, z1: offset as i64 }
    } else {
        GridLine { x0: offset as i64, z0: -k as i64, x1: offset as i64, z1: k as i64 }
    }
}

/// The number of lines of a grid of `k` divisions: `2k + 1` along each axis,
/// none without divisions.
pub open spec fn grid_len(k: int) -> int {
    if k == 0 {
        0
    } else {
        2 * (2 * k + 1)
    }
}

/// Returns the lines of a grid of `divisions` divisions on each side of the
/// origin, alternating a line along x and a line along z, from `-1` to `1`.
pub fn grid_lines(divisions: u32) -> (r: Vec<GridLine>)
    ensures
        r@.len() == grid_len(divisions as int),
        forall|i: int| 0 <= i < r@.len() ==> r@[i] == grid_line(divisions as int, i),
{
    let mut r: Vec<GridLine> = Vec::new();
    if divisions == 0 {
        return r;
    }
    let k: i64 = divisions as i64;
    let mut offset: i64 = -k;
    while offset <= k
        invariant
            1 <= k <= u32::MAX,
            -k <= offset <= k + 1,
            r@.len() == 2 * (offset + k),
            forall|i: int| 0 <= i < r@.len() ==> r@[i] == grid_line(k as int, i),
        decreases k + 1 - offset,
    {
        let n: Ghost<int> = Ghost(r@.len() as int);
        r.push(GridLine { x0: -k, z0: offset, x1: k, z1: offset });
        r.push(GridLine { x0: offset, z0: -k, x1: offset, z1: k });
        proof {
            assert(n@ / 2 - k == offset);
            assert((n@ + 1) / 2 - k == offset);
            assert(r@[n@] == grid_line(k as int, n@));
            assert(r@[n@ + 1] == grid_line(k as int, n@ + 1));
        }
        offset = offset + 1;
    }
    r
}

} // verus!
