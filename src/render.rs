use vstd::prelude::*;

use crate::class::Rgb;

verus! {

/// The surface that every finished path is committed to.
pub const TARGET_SURFACE: u32 = 0;

/// One call on the overlay surface. `P` is the caller's point type: the library
/// decides the order of the calls and never looks inside a point.
#[derive(Clone, Copy, Debug, PartialEq)]
pub enum DrawOp<P> {
    SetColor(Rgb),
    MoveTo(P),
    LineTo(P),
    DrawPath,
    Commit(u32),
}

/// A move to the first point, then a line to each following point.
pub open spec fn path_ops<P>(points: Seq<P>) -> Seq<DrawOp<P>> {
    if points.len() == 0 {
        Seq::empty()
    } else {
        seq![DrawOp::MoveTo(points[0])] + points.drop_first().map_values(
            |p: P| DrawOp::LineTo(p),
        )
    }
}

/// The full drawing of one track: color, path, finalize, commit.
pub open spec fn render_ops<P>(color: Rgb, points: Seq<P>) -> Seq<DrawOp<P>> {
    seq![DrawOp::SetColor(color)] + path_ops(points) + seq![
        DrawOp::DrawPath,
        DrawOp::Commit(TARGET_SURFACE),
    ]
}

/// The calls that draw `points` as one polyline in `color` and make it visible.
pub fn plan_path<P: Copy>(color: Rgb, points: &Vec<P>) -> (r: Vec<DrawOp<P>>)
    ensures
        r@ == render_ops(color, points@),
{
    let mut ops: Vec<DrawOp<P>> = Vec::new();
    ops.push(DrawOp::SetColor(color));
    let n = points.len();
    if n > 0 {
        ops.push(DrawOp::MoveTo(points[0]));
        let mut i: usize = 1;
        while i < n
            invariant
                n == points@.len(),
                1 <= i <= n,
                ops@ == seq![DrawOp::SetColor(color)] + seq![DrawOp::MoveTo(points@[0])]
                    + points@.subrange(1, i as int).map_values(|p: P| DrawOp::LineTo(p)),
            decreases n - i,
        {
            ops.push(DrawOp::LineTo(points[i]));
            i = i + 1;
            proof {
                assert(points@.subrange(1, i as int).map_values(|p: P| DrawOp::LineTo(p))
                    =~= points@.subrange(1, i - 1).map_values(|p: P| DrawOp::LineTo(p)).push(
                    DrawOp::LineTo(points@[i - 1]),
                ));
            }
        }
        assert(points@.subrange(1, n as int) =~= points@.drop_first());
    }
    ops.push(DrawOp::DrawPath);
    ops.push(DrawOp::Commit(TARGET_SURFACE));
    assert(ops@ =~= render_ops(color, points@));
    ops
}

} // verus!
