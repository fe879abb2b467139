use deferred::gbuffer::{create_g_buffer, create_res_buffer, SurfaceFormat, TextureKind};
use deferred::grid::{plane_grid_indices, terrain_grid_indices, TERRAIN_SUBDIVIDES};
use genmesh::generators::{IndexedPolygon, Plane};
use genmesh::{Triangulate, Vertices};

#[test]
fn g_buffer_has_three_float_planes_and_depth() {
    let g = create_g_buffer(800, 600);
    assert_eq!(g.width, 800);
    assert_eq!(g.height, 600);
    for info in [g.position, g.normal, g.diffuse] {
        assert_eq!(info.width, 800);
        assert_eq!(info.height, 600);
        assert_eq!(info.depth, 1);
        assert_eq!(info.levels, 1);
        assert_eq!(info.kind, TextureKind::Texture2D);
        assert_eq!(info.format, SurfaceFormat::FloatRgba32);
    }
    assert_eq!(g.depth.format, SurfaceFormat::Depth24Stencil8);
    assert_eq!(g.depth.width, 800);
    assert_eq!(g.depth.height, 600);
    assert_eq!(g.color_planes(), vec![g.position, g.normal, g.diffuse]);
}

#[test]
fn res_buffer_shares_the_depth_target() {
    let g = create_g_buffer(800, 600);
    let r = create_res_buffer(800, 600, g.depth);
    assert_eq!(r.depth, g.depth);
    assert_eq!(r.frame.format, SurfaceFormat::FloatRgba32);
    assert_eq!(r.frame.width, 800);
    assert_eq!(r.frame.height, 600);
}

#[test]
fn single_quad_grid_indices() {
    let v = plane_grid_indices(1, 1).unwrap();
    assert_eq!(v, vec![0, 1, 3, 3, 2, 0]);
}

#[test]
fn two_by_one_grid_indices() {
    let v = plane_grid_indices(2, 1).unwrap();
    assert_eq!(v, vec![0, 1, 4, 4, 3, 0, 1, 2, 5, 5, 4, 1]);
}

#[test]
fn degenerate_grids_are_refused() {
    assert!(plane_grid_indices(0, 5).is_none());
    assert!(plane_grid_indices(5, 0).is_none());
    assert!(plane_grid_indices(0xFFFF, 1).is_none());
}

#[test]
fn grid_indices_match_genmesh() {
    for (sx, sy) in [(1usize, 1usize), (3, 2), (8, 8)] {
        let expected: Vec<u32> = Plane::subdivide(sx, sy)
            .indexed_polygon_iter()
            .triangulate()
            .vertices()
            .map(|i| i as u32)
            .collect();
        assert_eq!(plane_grid_indices(sx, sy).unwrap(), expected);
    }
}

#[test]
fn quads_triangulate_with_shared_diagonal() {
    let v = plane_grid_indices(3, 2).unwrap();
    for q in 0..6 {
        let t = &v[6 * q..6 * q + 6];
        assert_eq!(t[2], t[3]);
        assert_eq!(t[5], t[0]);
        assert_eq!(t[1], t[0] + 1);
    }
}

#[test]
fn terrain_grid_covers_every_quad() {
    let v = terrain_grid_indices();
    assert_eq!(v.len(), 6 * TERRAIN_SUBDIVIDES * TERRAIN_SUBDIVIDES);
    let vertices = ((TERRAIN_SUBDIVIDES + 1) * (TERRAIN_SUBDIVIDES + 1)) as u32;
    assert!(v.iter().all(|&i| i < vertices));
}
