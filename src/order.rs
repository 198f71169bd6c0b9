//! Draw order: shapes sort by depth, then by shader pair, and otherwise keep
//! the order they were extracted in.
use vstd::prelude::*;
use crate::shader_id::{ShaderKey, cmp_int, lex, cmp_shader_key, compare_shader_keys, lemma_cmp_shader_key_total};
use crate::extract::{ExtractedShape, key_of};

verus! {

/// The sign bit of an f32 bit pattern.
pub const SIGN_BIT: u32 = 0x8000_0000;

/// The bit pattern of +infinity; magnitudes above it are NaNs.
pub const INFINITY_BITS: u32 = 0x7f80_0000;

/// An integer that orders f32 values as IEEE-754 comparison does: for two
/// non-NaN values `a < b` iff `key(a) < key(b)`, and `-0.0` and `+0.0` get
/// one key. Every NaN gets the largest key, so NaN depths sort last.
pub open spec fn depth_key(z: u32) -> int {
    let negative = z >= SIGN_BIT;
    let magnitude = if negative { z - SIGN_BIT } else { z as int };
    if magnitude > INFINITY_BITS {
        u32::MAX as int
    } else if negative {
        SIGN_BIT - magnitude
    } else {
        SIGN_BIT + magnitude
    }
}

/// Computes `depth_key(z)`.
pub fn depth_key_of(z: u32) -> (k: u32)
    ensures
        k == depth_key(z),
{
    let negative = z >= SIGN_BIT;
    let magnitude = if negative { z - SIGN_BIT } else { z };
    if magnitude > INFINITY_BITS {
        u32::MAX
    } else if negative {
        SIGN_BIT - magnitude
    } else {
        SIGN_BIT + magnitude
    }
}

/// The depth key of a snapshot: that of its translation's z.
pub open spec fn depth_of(s: ExtractedShape) -> int {
    depth_key(s.transform.translation[2])
}

/// Snapshots compare by depth, then by shader pair.
pub open spec fn cmp_shapes(a: ExtractedShape, b: ExtractedShape) -> int {
    lex(cmp_int(depth_of(a), depth_of(b)), cmp_shader_key(key_of(a), key_of(b)))
}

/// In a stable sort of `shapes`, the shape at index `i` comes before the one
/// at index `j`.
pub open spec fn precedes(shapes: Seq<ExtractedShape>, i: int, j: int) -> bool {
    cmp_shapes(shapes[i], shapes[j]) < 0 || (cmp_shapes(shapes[i], shapes[j]) == 0 && i < j)
}

/// `order` lists every index of `shapes` once, in stably sorted order.
pub open spec fn is_sorted_order(shapes: Seq<ExtractedShape>, order: Seq<usize>) -> bool {
    &&& order.len() == shapes.len()
    &&& forall|k: int| 0 <= k < order.len() ==> order[k] < shapes.len()
    &&& forall|x: usize| x < shapes.len() ==> #[trigger] order.contains(x)
    &&& forall|p: int, q: int|
        0 <= p < q < order.len() ==> precedes(shapes, order[p] as int, order[q] as int)
}

/// The shapes listed by `order`, in that order.
pub open spec fn permuted(shapes: Seq<ExtractedShape>, order: Seq<usize>) -> Seq<ExtractedShape> {
    Seq::new(order.len(), |k: int| shapes[order[k] as int])
}

/// The snapshot order is total: antisymmetric and transitive.
pub proof fn lemma_cmp_shapes_total(a: ExtractedShape, b: ExtractedShape, c: ExtractedShape)
    ensures
        cmp_shapes(a, b) == -cmp_shapes(b, a),
        -1 <= cmp_shapes(a, b) <= 1,
        cmp_shapes(a, b) <= 0 && cmp_shapes(b, c) <= 0 ==> cmp_shapes(a, c) <= 0,
        cmp_shapes(a, b) < 0 && cmp_shapes(b, c) <= 0 ==> cmp_shapes(a, c) < 0,
        cmp_shapes(a, b) <= 0 && cmp_shapes(b, c) < 0 ==> cmp_shapes(a, c) < 0,
{
    lemma_cmp_shader_key_total(key_of(a), key_of(b), key_of(c));
    lemma_cmp_shader_key_total(key_of(b), key_of(c), key_of(a));
    lemma_cmp_shader_key_total(key_of(a), key_of(c), key_of(b));
    lemma_cmp_shader_key_total(key_of(c), key_of(b), key_of(a));
}

/// Three-way comparison of two snapshots.
pub fn compare_shapes(a: &ExtractedShape, b: &ExtractedShape) -> (r: i8)
    ensures
        r == cmp_shapes(*a, *b),
{
    let da = depth_key_of(a.transform.translation[2]);
    let db = depth_key_of(b.transform.translation[2]);
    if da < db {
        -1
    } else if da > db {
        1
    } else {
        let ka = ShaderKey { sdf: a.sdf_shader, fill: a.fill_shader };
        let kb = ShaderKey { sdf: b.sdf_shader, fill: b.fill_shader };
        compare_shader_keys(&ka, &kb)
    }
}

/// The stable sorted order of `shapes`: for each place of the sorted list,
/// the index of the shape that goes there.
pub fn sort_order(shapes: &Vec<ExtractedShape>) -> (order: Vec<usize>)
    ensures
        is_sorted_order(shapes@, order@),
{
    let n = shapes.len();
    let mut order: Vec<usize> = Vec::new();
    let mut i: usize = 0;
    while i < n
        invariant
            n == shapes.len(),
            i <= n,
            order.len() == i,
            forall|k: int| 0 <= k < order.len() ==> order[k] < i,
            forall|x: usize| x < i ==> #[trigger] order@.contains(x),
            forall|p: int, q: int|
                0 <= p < q < order.len() ==> precedes(shapes@, order[p] as int, order[q] as int),
        decreases n - i,
    {
        let mut pos: usize = 0;
        while pos < order.len() && compare_shapes(&shapes[i], &shapes[order[pos]]) >= 0
            invariant
                n == shapes.len(),
                i < n,
                order.len() == i,
                pos <= order.len(),
                forall|k: int| 0 <= k < order.len() ==> order[k] < i,
                forall|k: int| 0 <= k < pos ==> cmp_shapes(shapes@[i as int], shapes@[order[k] as int]) >= 0,
            decreases order.len() - pos,
        {
            pos = pos + 1;
        }
        let ghost old_order = order@;
        proof {
            // Everything from `pos` on must come after shape `i`.
            assert forall|k: int| pos <= k < old_order.len() implies cmp_shapes(
                shapes@[i as int],
                shapes@[old_order[k] as int],
            ) < 0 by {
                if k > pos {
                    assert(precedes(shapes@, old_order[pos as int] as int, old_order[k] as int));
                    lemma_cmp_shapes_total(
                        shapes@[i as int],
                        shapes@[old_order[pos as int] as int],
                        shapes@[old_order[k] as int],
                    );
                }
            }
        }
        order.insert(pos, i);
        proof {
            let new_order = order@;
            assert(new_order == old_order.insert(pos as int, i));
            assert forall|p: int, q: int|
                0 <= p < q < new_order.len() implies precedes(
                shapes@,
                new_order[p] as int,
                new_order[q] as int,
            ) by {
                if q == pos {
                    let a = shapes@[new_order[p] as int];
                    lemma_cmp_shapes_total(shapes@[i as int], a, a);
                } else if p == pos {
                    assert(new_order[q] == old_order[q - 1]);
                } else {
                    let pp = if p < pos { p } else { p - 1 };
                    let qq = if q < pos { q } else { q - 1 };
                    assert(new_order[p] == old_order[pp]);
                    assert(new_order[q] == old_order[qq]);
                }
            }
            assert forall|x: usize| x < i + 1 implies #[trigger] new_order.contains(x) by {
                if x == i {
                    assert(new_order[pos as int] == x);
                } else {
                    assert(old_order.contains(x));
                    let k = choose|k: int| 0 <= k < old_order.len() && old_order[k] == x;
                    if k < pos {
                        assert(new_order[k] == x);
                    } else {
                        assert(new_order[k + 1] == x);
                    }
                }
            }
        }
        i = i + 1;
    }
    order
}

/// Sorts the snapshots stably by depth, then by shader pair, and returns for
/// each place of the sorted list the index the shape had before.
pub fn sort_shapes(shapes: &mut Vec<ExtractedShape>) -> (order: Vec<usize>)
    ensures
        is_sorted_order(old(shapes)@, order@),
        final(shapes)@ == permuted(old(shapes)@, order@),
{
    let order = sort_order(shapes);
    let mut sorted: Vec<ExtractedShape> = Vec::new();
    let mut k: usize = 0;
    while k < order.len()
        invariant
            k <= order.len(),
            is_sorted_order(shapes@, order@),
            sorted@ == permuted(shapes@, order@.take(k as int)),
        decreases order.len() - k,
    {
        sorted.push(shapes[order[k]]);
        proof {
            assert(sorted@ =~= permuted(shapes@, order@.take(k + 1)));
        }
        k = k + 1;
    }
    proof {
        assert(order@.take(k as int) =~= order@);
    }
    *shapes = sorted;
    order
}

} // verus!
