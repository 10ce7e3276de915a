use scene_viewer::screen_quad::{screen_quad_vertices, ScreenQuadVertex, SCREEN_QUAD_VERTEX_COUNT};

fn v(x: i8, y: i8, u: i8, w: i8) -> ScreenQuadVertex {
    ScreenQuadVertex { x, y, u, v: w }
}

#[test]
fn quad_is_two_triangles_over_the_screen() {
    let quad = screen_quad_vertices();
    assert_eq!(quad.len(), SCREEN_QUAD_VERTEX_COUNT);
    assert_eq!(
        quad,
        vec![
            v(-1, 1, 0, 1),
            v(-1, -1, 0, 0),
            v(1, -1, 1, 0),
            v(-1, 1, 0, 1),
            v(1, -1, 1, 0),
            v(1, 1, 1, 1),
        ]
    );
}

#[test]
fn quad_texture_follows_position() {
    for p in screen_quad_vertices() {
        assert_eq!(2 * p.u, p.x + 1);
        assert_eq!(2 * p.v, p.y + 1);
    }
}

#[test]
fn quad_triangles_turn_counter_clockwise() {
    let q = screen_quad_vertices();
    for t in 0..2 {
        let (a, b, c) = (q[3 * t], q[3 * t + 1], q[3 * t + 2]);
        let area = (b.x - a.x) as i32 * (c.y - a.y) as i32 - (c.x - a.x) as i32 * (b.y - a.y) as i32;
        assert_eq!(area, 4);
    }
}
