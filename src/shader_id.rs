//! Identities of shader assets, the pair that keys a composed shader, and the
//! total order used to group shapes that share a pair.
use vstd::prelude::*;

verus! {

/// The identity of a shader asset handle: either an id drawn at creation
/// (the type's uuid and a number) or the id of the asset path it was loaded
/// from (the source path's id and the label's id).
#[derive(Clone, Copy, Debug, PartialEq, Eq, Hash, Structural)]
pub enum ShaderId {
    Id(u128, u64),
    AssetPath(u64, u64),
}

/// The (SDF shader, fill shader) pair. Shapes with equal keys can be drawn
/// by one composed shader, hence in one batch.
#[derive(Clone, Copy, Debug, PartialEq, Eq, Hash, Structural)]
pub struct ShaderKey {
    pub sdf: ShaderId,
    pub fill: ShaderId,
}

/// Three-way comparison of two integers: -1, 0 or 1.
pub open spec fn cmp_int(a: int, b: int) -> int {
    if a < b {
        -1
    } else if a == b {
        0
    } else {
        1
    }
}

/// Lexicographic combination of two three-way comparisons.
pub open spec fn lex(first: int, second: int) -> int {
    if first != 0 {
        first
    } else {
        second
    }
}

/// Drawn ids come before path ids; within a kind, fields compare in order.
pub open spec fn cmp_shader_id(a: ShaderId, b: ShaderId) -> int {
    match (a, b) {
        (ShaderId::Id(u1, n1), ShaderId::Id(u2, n2)) => lex(
            cmp_int(u1 as int, u2 as int),
            cmp_int(n1 as int, n2 as int),
        ),
        (ShaderId::Id(_, _), ShaderId::AssetPath(_, _)) => -1,
        (ShaderId::AssetPath(_, _), ShaderId::Id(_, _)) => 1,
        (ShaderId::AssetPath(p1, l1), ShaderId::AssetPath(p2, l2)) => lex(
            cmp_int(p1 as int, p2 as int),
            cmp_int(l1 as int, l2 as int),
        ),
    }
}

/// Keys compare by their SDF shader, then by their fill shader.
pub open spec fn cmp_shader_key(a: ShaderKey, b: ShaderKey) -> int {
    lex(cmp_shader_id(a.sdf, b.sdf), cmp_shader_id(a.fill, b.fill))
}

/// The key order is a total order: reflexive equality, antisymmetry and
/// transitivity.
pub proof fn lemma_cmp_shader_key_total(a: ShaderKey, b: ShaderKey, c: ShaderKey)
    ensures
        cmp_shader_key(a, b) == 0 <==> a == b,
        cmp_shader_key(a, b) == -cmp_shader_key(b, a),
        -1 <= cmp_shader_key(a, b) <= 1,
        cmp_shader_key(a, b) < 0 && cmp_shader_key(b, c) < 0 ==> cmp_shader_key(a, c) < 0,
{
}

fn compare_u128(a: u128, b: u128) -> (r: i8)
    ensures
        r == cmp_int(a as int, b as int),
{
    if a < b {
        -1
    } else if a == b {
        0
    } else {
        1
    }
}

fn compare_u64(a: u64, b: u64) -> (r: i8)
    ensures
        r == cmp_int(a as int, b as int),
{
    if a < b {
        -1
    } else if a == b {
        0
    } else {
        1
    }
}

/// Three-way comparison of two shader ids.
pub fn compare_shader_ids(a: &ShaderId, b: &ShaderId) -> (r: i8)
    ensures
        r == cmp_shader_id(*a, *b),
{
    match (a, b) {
        (ShaderId::Id(u1, n1), ShaderId::Id(u2, n2)) => {
            let c = compare_u128(*u1, *u2);
            if c != 0 {
                c
            } else {
                compare_u64(*n1, *n2)
            }
        },
        (ShaderId::Id(_, _), ShaderId::AssetPath(_, _)) => -1,
        (ShaderId::AssetPath(_, _), ShaderId::Id(_, _)) => 1,
        (ShaderId::AssetPath(p1, l1), ShaderId::AssetPath(p2, l2)) => {
            let c = compare_u64(*p1, *p2);
            if c != 0 {
                c
            } else {
                compare_u64(*l1, *l2)
            }
        },
    }
}

/// Three-way comparison of two shader keys.
pub fn compare_shader_keys(a: &ShaderKey, b: &ShaderKey) -> (r: i8)
    ensures
        r == cmp_shader_key(*a, *b),
{
    let c = compare_shader_ids(&a.sdf, &b.sdf);
    if c != 0 {
        c
    } else {
        compare_shader_ids(&a.fill, &b.fill)
    }
}

} // verus!
