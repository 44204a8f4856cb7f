use vstd::prelude::*;
use crate::vertex::{Float3, Vertex};

verus! {

/// Position of an `f32` bit pattern in the order of the values it encodes:
/// positive values keep their order above the sign bit, negative values
/// (sign bit set) are reversed below it. Negative zero sorts just below
/// positive zero.
pub open spec fn order_key(bits: u32) -> int {
    if bits >= 0x8000_0000 {
        0xFFFF_FFFFint - bits
    } else {
        bits + 0x8000_0000int
    }
}

/// Component `axis` (0, 1 or 2) of a point.
pub open spec fn coord(p: Float3, axis: int) -> u32 {
    if axis == 0 {
        p.d0
    } else if axis == 1 {
        p.d1
    } else {
        p.d2
    }
}

/// An axis-aligned box in mesh space, its corners held as `f32` bit patterns.
#[derive(Clone, Copy, Debug, PartialEq, Eq, Structural)]
pub struct Aabb {
    pub mins: Float3,
    pub maxs: Float3,
}

/// Every vertex position lies within the box on every axis.
pub open spec fn encloses(b: Aabb, vs: Seq<Vertex>) -> bool {
    forall|i: int, axis: int|
        0 <= i < vs.len() && 0 <= axis < 3 ==> order_key(coord(b.mins, axis)) <= order_key(
            #[trigger] coord(vs[i].pos, axis),
        ) && order_key(coord(vs[i].pos, axis)) <= order_key(coord(b.maxs, axis))
}

/// Every face of the box touches a vertex: it is the smallest enclosing box.
pub open spec fn tight(b: Aabb, vs: Seq<Vertex>) -> bool {
    forall|axis: int|
        0 <= axis < 3 ==> (exists|i: int|
            0 <= i < vs.len() && coord(#[trigger] vs[i].pos, axis) == #[trigger] coord(b.mins, axis)) && (
        exists|i: int| 0 <= i < vs.len() && coord(#[trigger] vs[i].pos, axis) == coord(b.maxs, axis))
}

/// `b` is the bounding volume of the vertex positions `vs`.
pub open spec fn is_bounding_volume(b: Aabb, vs: Seq<Vertex>) -> bool {
    encloses(b, vs) && tight(b, vs)
}

/// Min corner below max corner on every axis.
pub open spec fn ordered(b: Aabb) -> bool {
    forall|axis: int|
        0 <= axis < 3 ==> order_key(coord(b.mins, axis)) <= order_key(coord(b.maxs, axis))
}

/// Executable form of `order_key`.
pub fn key_of(bits: u32) -> (r: u32)
    ensures
        r as int == order_key(bits),
{
    if bits >= 0x8000_0000 {
        0xFFFF_FFFFu32 - bits
    } else {
        bits + 0x8000_0000u32
    }
}

/// Keeps the lower of the current minimum and a new value.
fn update_min(val: &mut u32, new: u32)
    ensures
        order_key(*final(val)) == if order_key(new) < order_key(*old(val)) {
            order_key(new)
        } else {
            order_key(*old(val))
        },
        *final(val) == *old(val) || *final(val) == new,
{
    if key_of(new) < key_of(*val) {
        *val = new;
    }
}

/// Keeps the higher of the current maximum and a new value.
fn update_max(val: &mut u32, new: u32)
    ensures
        order_key(*final(val)) == if order_key(new) > order_key(*old(val)) {
            order_key(new)
        } else {
            order_key(*old(val))
        },
        *final(val) == *old(val) || *final(val) == new,
{
    if key_of(new) > key_of(*val) {
        *val = new;
    }
}

/// The smallest axis-aligned box that holds every vertex position, found in
/// one scan; `None` for an empty vertex set.
pub fn bounding_volume(vs: &Vec<Vertex>) -> (r: Option<Aabb>)
    ensures
        r is None <==> vs@.len() == 0,
        r matches Some(b) ==> is_bounding_volume(b, vs@),
{
    if vs.len() == 0 {
        return None;
    }
    let first = vs[0].pos;
    let mut min_x = first.d0;
    let mut min_y = first.d1;
    let mut min_z = first.d2;
    let mut max_x = first.d0;
    let mut max_y = first.d1;
    let mut max_z = first.d2;
    let mut i: usize = 1;
    proof {
        let b = Aabb {
            mins: Float3 { d0: min_x, d1: min_y, d2: min_z },
            maxs: Float3 { d0: max_x, d1: max_y, d2: max_z },
        };
        let s = vs@.subrange(0, 1);
        assert(s[0] == vs@[0]);
        assert forall|axis: int| 0 <= axis < 3 implies (exists|k: int|
            0 <= k < s.len() && coord(#[trigger] s[k].pos, axis) == #[trigger] coord(b.mins, axis))
            && (exists|k: int|
            0 <= k < s.len() && coord(#[trigger] s[k].pos, axis) == coord(b.maxs, axis)) by {
            assert(coord(s[0].pos, axis) == coord(b.mins, axis));
            assert(coord(s[0].pos, axis) == coord(b.maxs, axis));
        }
    }
    while i < vs.len()
        invariant
            1 <= i <= vs@.len(),
            is_bounding_volume(
                Aabb {
                    mins: Float3 { d0: min_x, d1: min_y, d2: min_z },
                    maxs: Float3 { d0: max_x, d1: max_y, d2: max_z },
                },
                vs@.subrange(0, i as int),
            ),
        decreases vs@.len() - i,
    {
        let ghost pre = vs@.subrange(0, i as int);
        let ghost post = vs@.subrange(0, i as int + 1);
        let ghost b0 = Aabb {
            mins: Float3 { d0: min_x, d1: min_y, d2: min_z },
            maxs: Float3 { d0: max_x, d1: max_y, d2: max_z },
        };
        let p = vs[i].pos;
        update_min(&mut min_x, p.d0);
        update_min(&mut min_y, p.d1);
        update_min(&mut min_z, p.d2);
        update_max(&mut max_x, p.d0);
        update_max(&mut max_y, p.d1);
        update_max(&mut max_z, p.d2);
        proof {
            let b1 = Aabb {
                mins: Float3 { d0: min_x, d1: min_y, d2: min_z },
                maxs: Float3 { d0: max_x, d1: max_y, d2: max_z },
            };
            assert forall|j: int| 0 <= j < i implies post[j] == pre[j] by {}
            assert(post[i as int] == vs@[i as int]);
            assert forall|j: int, axis: int| 0 <= j < post.len() && 0 <= axis < 3 implies order_key(
                coord(b1.mins, axis),
            ) <= order_key(#[trigger] coord(post[j].pos, axis)) && order_key(coord(post[j].pos, axis))
                <= order_key(coord(b1.maxs, axis)) by {
                if j < i {
                    assert(pre[j] == post[j]);
                }
            }
            assert forall|axis: int| 0 <= axis < 3 implies (exists|k: int|
                0 <= k < post.len() && coord(#[trigger] post[k].pos, axis) == #[trigger] coord(b1.mins, axis))
                && (exists|k: int|
                0 <= k < post.len() && coord(#[trigger] post[k].pos, axis) == coord(b1.maxs, axis)) by {
                if coord(b1.mins, axis) == coord(b0.mins, axis) {
                    let k = choose|k: int|
                        0 <= k < pre.len() && coord(#[trigger] pre[k].pos, axis) == coord(b0.mins, axis);
                    assert(post[k] == pre[k]);
                } else {
                    assert(coord(post[i as int].pos, axis) == coord(b1.mins, axis));
                }
                if coord(b1.maxs, axis) == coord(b0.maxs, axis) {
                    let k = choose|k: int|
                        0 <= k < pre.len() && coord(#[trigger] pre[k].pos, axis) == coord(b0.maxs, axis);
                    assert(post[k] == pre[k]);
                } else {
                    assert(coord(post[i as int].pos, axis) == coord(b1.maxs, axis));
                }
            }
        }
        i = i + 1;
    }
    assert(vs@.subrange(0, vs@.len() as int) =~= vs@);
    Some(
        Aabb {
            mins: Float3 { d0: min_x, d1: min_y, d2: min_z },
            maxs: Float3 { d0: max_x, d1: max_y, d2: max_z },
        },
    )
}

/// The bounding volume of a nonempty vertex set has its min corner below its
/// max corner on every axis, and holds every vertex position.
pub proof fn lemma_bounding_volume_ordered(b: Aabb, vs: Seq<Vertex>)
    requires
        vs.len() > 0,
        is_bounding_volume(b, vs),
    ensures
        ordered(b),
        encloses(b, vs),
{
    assert forall|axis: int| 0 <= axis < 3 implies order_key(coord(b.mins, axis)) <= order_key(
        coord(b.maxs, axis),
    ) by {
        assert(order_key(coord(b.mins, axis)) <= order_key(coord(vs[0].pos, axis)));
    }
}

} // verus!
