//! The static geometry: a pentagon of five vertices drawn as a triangle fan.

use vstd::prelude::*;

verus! {

/// Vertices of the pentagon.
pub const PENTAGON_VERTEX_COUNT: u16 = 5;

/// Indices of the pentagon's triangle list.
pub const PENTAGON_INDEX_COUNT: u32 = 9;

/// The fan that joins each rim edge `(t, t + 1)`, for `t` below `rim - 1`,
/// to the vertex `apex`, as a triangle list: three indices per triangle.
pub open spec fn fan_spec(apex: u16, rim: u16) -> Seq<u16>
    recommends
        rim >= 1,
{
    Seq::new(
        (3 * (rim - 1)) as nat,
        |k: int|
            if k % 3 == 0 {
                (k / 3) as u16
            } else if k % 3 == 1 {
                (k / 3 + 1) as u16
            } else {
                apex
            },
    )
}

/// Triangle `t` of an index list: its three corners.
pub open spec fn triangle(indices: Seq<u16>, t: int) -> (u16, u16, u16) {
    (indices[3 * t], indices[3 * t + 1], indices[3 * t + 2])
}

/// The pentagon's index list.
pub open spec fn pentagon_spec() -> Seq<u16> {
    seq![0, 1, 4, 1, 2, 4, 2, 3, 4]
}

/// Builds the triangle fan from `apex` over the rim vertices `0..rim`.
pub fn fan_indices(apex: u16, rim: u16) -> (r: Vec<u16>)
    requires
        rim >= 1,
    ensures
        r@ == fan_spec(apex, rim),
{
    let mut r: Vec<u16> = Vec::new();
    let mut t: u16 = 0;
    while t + 1 < rim
        invariant
            rim >= 1,
            t < rim,
            r@.len() == 3 * t,
            forall|k: int| 0 <= k < r@.len() ==> r@[k] == #[trigger] fan_spec(apex, rim)[k],
        decreases rim - t,
    {
        r.push(t);
        r.push(t + 1);
        r.push(apex);
        proof {
            assert forall|k: int| 0 <= k < r@.len() implies r@[k] == #[trigger] fan_spec(
                apex,
                rim,
            )[k] by {
                if k >= 3 * t {
                    assert(k / 3 == t as int);
                }
            }
        }
        t = t + 1;
    }
    assert(r@ =~= fan_spec(apex, rim));
    r
}

/// The pentagon's index list: the fan from vertex 4 over vertices 0 to 3.
pub fn pentagon_indices() -> (r: Vec<u16>)
    ensures
        r@ == pentagon_spec(),
        r@.len() == PENTAGON_INDEX_COUNT,
        forall|k: int| 0 <= k < r@.len() ==> #[trigger] r@[k] < PENTAGON_VERTEX_COUNT,
{
    let r = fan_indices(4, 4);
    proof {
        lemma_pentagon_is_fan();
    }
    r
}

/// The pentagon's index list is the fan from vertex 4 over vertices 0 to 3,
/// and its triangles are (0, 1, 4), (1, 2, 4) and (2, 3, 4).
pub proof fn lemma_pentagon_is_fan()
    ensures
        fan_spec(4, 4) == pentagon_spec(),
        triangle(pentagon_spec(), 0) == (0u16, 1u16, 4u16),
        triangle(pentagon_spec(), 1) == (1u16, 2u16, 4u16),
        triangle(pentagon_spec(), 2) == (2u16, 3u16, 4u16),
{
    assert(fan_spec(4, 4) =~= pentagon_spec());
}

/// Every index of a fan names a vertex below `max(apex + 1, rim)`.
pub proof fn lemma_fan_indices_in_range(apex: u16, rim: u16, k: int)
    requires
        rim >= 1,
        0 <= k < fan_spec(apex, rim).len(),
    ensures
        fan_spec(apex, rim)[k] == apex || fan_spec(apex, rim)[k] < rim,
{
}

} // verus!
