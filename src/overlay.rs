use vstd::prelude::*;
use crate::vertex::{Float3, Vertex};

verus! {

/// Colour of a debug marker: blue `(0, 0, 1, 1)` for normals, green
/// `(0, 1, 0, 1)` for tangents.
#[derive(Clone, Copy, Debug, PartialEq, Eq, Structural)]
pub enum MarkerColor {
    Normal,
    Tangent,
}

/// One debug line: it starts at `origin` and runs along `direction`, which the
/// line renderer scales by the fixed marker factor (0.2).
#[derive(Clone, Copy, Debug, PartialEq, Eq, Structural)]
pub struct Segment {
    pub origin: Float3,
    pub direction: Float3,
    pub color: MarkerColor,
}

/// The overlay of a vertex set: first one normal marker per vertex, then one
/// tangent marker per vertex, both in vertex order.
pub open spec fn overlay_of(vs: Seq<Vertex>) -> Seq<Segment> {
    Seq::new(
        2 * vs.len(),
        |k: int|
            if k < vs.len() {
                Segment { origin: vs[k].pos, direction: vs[k].n, color: MarkerColor::Normal }
            } else {
                Segment {
                    origin: vs[k - vs.len()].pos,
                    direction: vs[k - vs.len()].t,
                    color: MarkerColor::Tangent,
                }
            },
    )
}

/// Builds the normal and tangent markers of the uploaded vertices.
pub fn overlay_segments(vs: &Vec<Vertex>) -> (r: Vec<Segment>)
    ensures
        r@ == overlay_of(vs@),
{
    let mut out: Vec<Segment> = Vec::new();
    let mut i: usize = 0;
    while i < vs.len()
        invariant
            i <= vs@.len(),
            out@ == overlay_of(vs@).subrange(0, i as int),
        decreases vs@.len() - i,
    {
        let v = &vs[i];
        out.push(Segment { origin: v.pos, direction: v.n, color: MarkerColor::Normal });
        assert(out@ =~= overlay_of(vs@).subrange(0, i as int + 1));
        i = i + 1;
    }
    let n = vs.len();
    let mut j: usize = 0;
    while j < n
        invariant
            n == vs@.len(),
            j <= n,
            out@ == overlay_of(vs@).subrange(0, n + j),
        decreases n - j,
    {
        let v = &vs[j];
        out.push(Segment { origin: v.pos, direction: v.t, color: MarkerColor::Tangent });
        assert(out@ =~= overlay_of(vs@).subrange(0, n + j + 1));
        j = j + 1;
    }
    assert(out@ =~= overlay_of(vs@));
    out
}

} // verus!
