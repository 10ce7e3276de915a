use vstd::prelude::*;

verus! {

/// A corner of the quad on which the off-screen framebuffer is drawn:
/// its position in normalized device coordinates (`x`, `y`) and its texture
/// coordinate (`u`, `v`). Every component is -1, 0 or 1, so integers hold
/// them exactly.
#[derive(Clone, Copy, Debug, PartialEq, Eq, Structural)]
pub struct ScreenQuadVertex {
    pub x: i8,
    pub y: i8,
    pub u: i8,
    pub v: i8,
}

/// Number of vertices of the quad: two triangles of three.
pub const SCREEN_QUAD_VERTEX_COUNT: usize = 6;

/// A vertex whose texture coordinate is the texel that its position maps to.
pub open spec fn vertex_at(x: int, y: int) -> ScreenQuadVertex {
    ScreenQuadVertex { x: x as i8, y: y as i8, u: ((x + 1) / 2) as i8, v: ((y + 1) / 2) as i8 }
}

/// The quad: triangles (top left, bottom left, bottom right) and
/// (top left, bottom right, top right), as a list of triangles.
pub open spec fn spec_screen_quad() -> Seq<ScreenQuadVertex> {
    seq![
        vertex_at(-1, 1),
        vertex_at(-1, -1),
        vertex_at(1, -1),
        vertex_at(-1, 1),
        vertex_at(1, -1),
        vertex_at(1, 1),
    ]
}

/// Twice the signed area of the triangle `a`, `b`, `c`; positive when the
/// corners turn counter-clockwise.
pub open spec fn doubled_signed_area(a: ScreenQuadVertex, b: ScreenQuadVertex, c: ScreenQuadVertex) -> int {
    (b.x - a.x) * (c.y - a.y) - (c.x - a.x) * (b.y - a.y)
}

/// Whether a vertex is a corner of the screen.
pub open spec fn is_screen_corner(p: ScreenQuadVertex) -> bool {
    (p.x == -1 || p.x == 1) && (p.y == -1 || p.y == 1)
}

/// The vertices of the quad that covers the whole screen, as a triangle list.
pub fn screen_quad_vertices() -> (vertices: Vec<ScreenQuadVertex>)
    ensures
        vertices@ == spec_screen_quad(),
{
    let mut vertices: Vec<ScreenQuadVertex> = Vec::new();
    vertices.push(ScreenQuadVertex { x: -1, y: 1, u: 0, v: 1 });
    vertices.push(ScreenQuadVertex { x: -1, y: -1, u: 0, v: 0 });
    vertices.push(ScreenQuadVertex { x: 1, y: -1, u: 1, v: 0 });
    vertices.push(ScreenQuadVertex { x: -1, y: 1, u: 0, v: 1 });
    vertices.push(ScreenQuadVertex { x: 1, y: -1, u: 1, v: 0 });
    vertices.push(ScreenQuadVertex { x: 1, y: 1, u: 1, v: 1 });
    assert(vertices@ =~= spec_screen_quad());
    vertices
}

/// Every vertex of the quad is a screen corner whose texture coordinate is
/// its position moved from [-1, 1] to [0, 1]: the framebuffer's texture is
/// stretched over the whole screen, the right way up.
pub proof fn lemma_quad_maps_texture_onto_screen()
    ensures
        spec_screen_quad().len() == SCREEN_QUAD_VERTEX_COUNT,
        forall|i: int|
            0 <= i < SCREEN_QUAD_VERTEX_COUNT ==> {
                let p = #[trigger] spec_screen_quad()[i];
                &&& is_screen_corner(p)
                &&& 2 * p.u == p.x + 1
                &&& 2 * p.v == p.y + 1
            },
{
}

/// Both triangles turn counter-clockwise, so neither is culled as a back
/// face; they share the diagonal from the top left to the bottom right and
/// lie on either side of it, and all four screen corners are used, so
/// together they cover the screen.
pub proof fn lemma_quad_triangles_cover_screen()
    ensures
        ({
            let q = spec_screen_quad();
            &&& doubled_signed_area(q[0], q[1], q[2]) == 4
            &&& doubled_signed_area(q[3], q[4], q[5]) == 4
            &&& q[0] == q[3] && q[2] == q[4]
            &&& q[1].x == -1 && q[1].y == -1
            &&& q[5].x == 1 && q[5].y == 1
            &&& q[0].x == -1 && q[0].y == 1
            &&& q[2].x == 1 && q[2].y == -1
        }),
{
    let q = spec_screen_quad();
    assert(q[0].x == -1 && q[0].y == 1 && q[1].x == -1 && q[1].y == -1);
    assert(q[2].x == 1 && q[2].y == -1 && q[5].x == 1 && q[5].y == 1);
    assert(doubled_signed_area(q[0], q[1], q[2]) == (-1 - -1) * (-1 - 1) - (1 - -1) * (-1 - 1));
    assert(doubled_signed_area(q[3], q[4], q[5]) == (1 - -1) * (1 - 1) - (1 - -1) * (-1 - 1));
}

} // verus!
