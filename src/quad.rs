//! The full-screen quad that every transform draws.
//!
//! Four corners at the corners of clip space, each with the texture
//! coordinate of the same corner of the image, and six indices that form two
//! counter-clockwise triangles. Clip space has y pointing up and texture
//! space has v pointing down, so clip `(x, y)` samples texture
//! `((x + 1) / 2, (1 - y) / 2)`: the quad maps clip space exactly onto the
//! whole texture.

use vstd::prelude::*;

verus! {

/// One corner of the quad: clip-space position (`x`, `y`, each -1 or 1)
/// and the texture coordinate it carries (`u`, `v`, each 0 or 1).
#[derive(Debug, Clone, Copy, PartialEq, Eq, Structural)]
pub struct QuadCorner {
    pub x: i8,
    pub y: i8,
    pub u: u8,
    pub v: u8,
}

/// The corner sits at a corner of clip space and carries the texture
/// coordinate of the matching corner of the image.
pub open spec fn maps_to_texture(c: QuadCorner) -> bool {
    &&& (c.x == -1 || c.x == 1)
    &&& (c.y == -1 || c.y == 1)
    &&& 2 * c.u == c.x + 1
    &&& 2 * c.v == 1 - c.y
}

/// Twice the signed area of the clip-space triangle `a b c`: positive where
/// it winds counter-clockwise.
pub open spec fn winding(a: QuadCorner, b: QuadCorner, c: QuadCorner) -> int {
    (b.x - a.x) * (c.y - a.y) - (b.y - a.y) * (c.x - a.x)
}

/// Bottom left, bottom right, top right, top left.
pub open spec fn full_screen_quad() -> Seq<QuadCorner> {
    seq![
        QuadCorner { x: -1i8, y: -1i8, u: 0, v: 1 },
        QuadCorner { x: 1, y: -1i8, u: 1, v: 1 },
        QuadCorner { x: 1, y: 1, u: 1, v: 0 },
        QuadCorner { x: -1i8, y: 1, u: 0, v: 0 },
    ]
}

/// The quad's corners: bottom left, bottom right, top right, top left.
pub fn quad_vertices() -> (r: Vec<QuadCorner>)
    ensures
        r@ == full_screen_quad(),
        forall|i: int| 0 <= i < r@.len() ==> maps_to_texture(#[trigger] r@[i]),
{
    let r = vec![
        QuadCorner { x: -1, y: -1, u: 0, v: 1 },
        QuadCorner { x: 1, y: -1, u: 1, v: 1 },
        QuadCorner { x: 1, y: 1, u: 1, v: 0 },
        QuadCorner { x: -1, y: 1, u: 0, v: 0 },
    ];
    assert(r@ =~= full_screen_quad());
    r
}

/// The two triangles of the quad, as indices into `quad_vertices`.
pub fn quad_indices() -> (r: Vec<u16>)
    ensures
        r@ == seq![0u16, 1, 2, 2, 3, 0],
{
    let r: Vec<u16> = vec![0, 1, 2, 2, 3, 0];
    assert(r@ =~= seq![0u16, 1, 2, 2, 3, 0]);
    r
}

/// The quad's geometry is sound: every corner maps clip space onto the
/// texture, the four corners are the four distinct corners of clip space,
/// every index names a corner, and both triangles wind counter-clockwise, so
/// neither is culled as a back face, and they share the diagonal from the
/// first corner to the third, so together they cover the square.
pub proof fn lemma_quad_geometry(corners: Seq<QuadCorner>, indices: Seq<u16>)
    requires
        corners == full_screen_quad(),
        indices == seq![0u16, 1, 2, 2, 3, 0],
    ensures
        forall|i: int| 0 <= i < corners.len() ==> maps_to_texture(#[trigger] corners[i]),
        forall|i: int, j: int|
            0 <= i < j < corners.len() ==> #[trigger] corners[i] != #[trigger] corners[j],
        forall|k: int| 0 <= k < indices.len() ==> (#[trigger] indices[k]) < corners.len(),
        indices.len() == 6,
        winding(corners[indices[0] as int], corners[indices[1] as int], corners[indices[2] as int])
            > 0,
        winding(corners[indices[3] as int], corners[indices[4] as int], corners[indices[5] as int])
            > 0,
        indices[0] == indices[5] && indices[2] == indices[3],
{
    assert(indices[0] == 0 && indices[1] == 1 && indices[2] == 2);
    assert(indices[3] == 2 && indices[4] == 3 && indices[5] == 0);
    let (a, b, c, d) = (corners[0], corners[1], corners[2], corners[3]);
    assert(a.x == -1 && a.y == -1 && b.x == 1 && b.y == -1);
    assert(c.x == 1 && c.y == 1 && d.x == -1 && d.y == 1);
    assert(winding(a, b, c) == 4);
    assert(winding(c, d, a) == 4);
}

} // verus!
