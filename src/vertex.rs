use vstd::prelude::*;

verus! {

/// Bit pattern of the quiet `f32` NaN, the value of a tangent component that
/// the source mesh does not give.
pub const NAN_BITS: u32 = 0x7fc0_0000;

/// The sign bit of an `f32` bit pattern.
pub const SIGN_BIT: u32 = 0x8000_0000;

/// Two `f32` components, each held as its IEEE-754 bit pattern.
#[derive(Clone, Copy, Debug, PartialEq, Eq, Structural)]
pub struct Float2 {
    pub d0: u32,
    pub d1: u32,
}

/// Three `f32` components, each held as its IEEE-754 bit pattern.
#[derive(Clone, Copy, Debug, PartialEq, Eq, Structural)]
pub struct Float3 {
    pub d0: u32,
    pub d1: u32,
    pub d2: u32,
}

/// A vertex as the mesh importer gives it: every attribute but the position
/// may be missing.
#[derive(Clone, Copy, Debug, PartialEq, Eq, Structural)]
pub struct SourceVertex {
    pub pos: Float3,
    pub uv: Option<Float2>,
    pub tangent: Option<Float3>,
    pub normal: Option<Float3>,
}

/// A vertex in the fixed layout that is uploaded to the GPU.
#[derive(Clone, Copy, Debug, PartialEq, Eq, Structural)]
pub struct Vertex {
    pub pos: Float3,
    pub uv: Float2,
    pub t: Float3,
    pub n: Float3,
}

/// Which attribute categories were missing on at least one vertex: one
/// diagnostic is due for each category that is set.
#[derive(Clone, Copy, Debug, PartialEq, Eq, Structural)]
pub struct MissingAttributes {
    pub tangent: bool,
    pub uv: bool,
    pub normal: bool,
}

/// The bit pattern of `-x` for the `f32` `x` with bit pattern `bits`.
pub open spec fn negated(bits: u32) -> u32 {
    if bits >= SIGN_BIT {
        (bits - SIGN_BIT) as u32
    } else {
        (bits + SIGN_BIT) as u32
    }
}

pub open spec fn nan3() -> Float3 {
    Float3 { d0: NAN_BITS, d1: NAN_BITS, d2: NAN_BITS }
}

pub open spec fn zero2() -> Float2 {
    Float2 { d0: 0, d1: 0 }
}

pub open spec fn zero3() -> Float3 {
    Float3 { d0: 0, d1: 0, d2: 0 }
}

/// The GPU record of one source vertex: fallbacks for missing attributes
/// (NaN tangent, zero UV, zero normal) and the UV's vertical component
/// negated.
pub open spec fn uploaded(s: SourceVertex) -> Vertex {
    let uv = match s.uv {
        Some(uv) => uv,
        None => zero2(),
    };
    Vertex {
        pos: s.pos,
        uv: Float2 { d0: uv.d0, d1: negated(uv.d1) },
        t: match s.tangent {
            Some(t) => t,
            None => nan3(),
        },
        n: match s.normal {
            Some(n) => n,
            None => zero3(),
        },
    }
}

/// The categories that are missing on some vertex of `src`.
pub open spec fn missing_in(src: Seq<SourceVertex>) -> MissingAttributes {
    MissingAttributes {
        tangent: exists|i: int| 0 <= i < src.len() && (#[trigger] src[i]).tangent is None,
        uv: exists|i: int| 0 <= i < src.len() && (#[trigger] src[i]).uv is None,
        normal: exists|i: int| 0 <= i < src.len() && (#[trigger] src[i]).normal is None,
    }
}

pub fn negate(bits: u32) -> (r: u32)
    ensures
        r == negated(bits),
{
    if bits >= SIGN_BIT {
        bits - SIGN_BIT
    } else {
        bits + SIGN_BIT
    }
}

/// Converts one source vertex to its GPU record.
pub fn upload_vertex(s: &SourceVertex) -> (r: Vertex)
    ensures
        r == uploaded(*s),
{
    let uv = match s.uv {
        Some(uv) => uv,
        None => Float2 { d0: 0, d1: 0 },
    };
    let t = match s.tangent {
        Some(t) => t,
        None => Float3 { d0: NAN_BITS, d1: NAN_BITS, d2: NAN_BITS },
    };
    let n = match s.normal {
        Some(n) => n,
        None => Float3 { d0: 0, d1: 0, d2: 0 },
    };
    Vertex { pos: s.pos, uv: Float2 { d0: uv.d0, d1: negate(uv.d1) }, t, n }
}

/// Converts every source vertex, in order, and reports which attribute
/// categories needed a fallback. It never fails.
pub fn upload(src: &Vec<SourceVertex>) -> (r: (Vec<Vertex>, MissingAttributes))
    ensures
        r.0@.len() == src@.len(),
        forall|i: int| 0 <= i < src@.len() ==> r.0@[i] == uploaded(#[trigger] src@[i]),
        r.1 == missing_in(src@),
{
    let mut out: Vec<Vertex> = Vec::new();
    let mut missing = MissingAttributes { tangent: false, uv: false, normal: false };
    let mut i: usize = 0;
    while i < src.len()
        invariant
            i <= src@.len(),
            out@.len() == i,
            forall|j: int| 0 <= j < i ==> out@[j] == uploaded(#[trigger] src@[j]),
            missing == missing_in(src@.subrange(0, i as int)),
        decreases src@.len() - i,
    {
        let s = &src[i];
        proof {
            let pre = src@.subrange(0, i as int);
            let post = src@.subrange(0, i as int + 1);
            assert forall|j: int| 0 <= j < i implies post[j] == pre[j] by {}
            assert(post[i as int] == src@[i as int]);
        }
        if s.tangent.is_none() {
            missing.tangent = true;
        }
        if s.uv.is_none() {
            missing.uv = true;
        }
        if s.normal.is_none() {
            missing.normal = true;
        }
        out.push(upload_vertex(s));
        i = i + 1;
    }
    assert(src@.subrange(0, src@.len() as int) =~= src@);
    (out, missing)
}

} // verus!
