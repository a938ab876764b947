use scene_render::common::ToArray;
use scene_render::geometry::{
    corner_cube_indices, corner_cube_vertices, cube_vertices, screen_quad, skybox_corners,
    skybox_indices, CubeVertex, CORNER_COUNT,
};
use scene_render::grid::{cube_grid, GridPoint, ROW_CUBE_COUNT};

#[test]
fn cube_vertices_follow_the_tables() {
    let v = cube_vertices();
    assert_eq!(v.len(), 36);
    assert_eq!(
        v[0],
        CubeVertex { position: [-1, -1, -1], normal: [0, 0, -1], tex_coords: [0, 0] }
    );
    assert_eq!(
        v[35],
        CubeVertex { position: [-1, 1, 1], normal: [0, 1, 0], tex_coords: [0, 0] }
    );
}

#[test]
fn cube_vertices_lie_on_their_faces() {
    for v in cube_vertices() {
        let dot: i32 = (0..3).map(|i| v.normal[i] as i32 * v.position[i] as i32).sum();
        assert_eq!(dot, 1);
        let nonzero = v.normal.iter().filter(|c| **c != 0).count();
        assert_eq!(nonzero, 1);
    }
}

#[test]
fn cube_triangles_share_their_normal() {
    let v = cube_vertices();
    for t in 0..12 {
        assert_eq!(v[3 * t].normal, v[3 * t + 1].normal);
        assert_eq!(v[3 * t].normal, v[3 * t + 2].normal);
    }
}

#[test]
fn skybox_indices_cover_each_face() {
    let idx = skybox_indices();
    assert_eq!(idx.len(), 36);
    assert_eq!(&idx[0..6], &[0, 2, 1, 0, 3, 2]);
    assert_eq!(&idx[6..12], &[4, 6, 5, 4, 7, 6]);
    assert_eq!(&idx[30..36], &[20, 22, 21, 20, 23, 22]);
}

#[test]
fn skybox_faces_are_flat() {
    let corners = skybox_corners();
    assert_eq!(corners.len(), 24);
    assert_eq!(corners[0], [-1, -1, 1]);
    assert_eq!(corners[23], [-1, 1, -1]);
    let axes = [(2, 1), (0, 1), (2, -1), (0, -1), (1, -1), (1, 1)];
    for (f, (axis, side)) in axes.iter().enumerate() {
        for k in 0..4 {
            assert_eq!(corners[4 * f + k][*axis], *side);
        }
    }
}

#[test]
fn screen_quad_maps_clip_space_to_texture_space() {
    let quad = screen_quad();
    assert_eq!(quad.len(), 6);
    assert_eq!(quad[0].position, [-1, 1]);
    assert_eq!(quad[0].tex_coords, [0, 1]);
    assert_eq!(quad[2].position, [1, -1]);
    assert_eq!(quad[2].tex_coords, [1, 0]);
    for v in quad {
        for i in 0..2 {
            assert_eq!(v.tex_coords[i] as i8 * 2, v.position[i] + 1);
        }
    }
}

#[test]
fn corner_cube_indices_name_corners() {
    let corners = corner_cube_vertices();
    assert_eq!(corners.len(), CORNER_COUNT);
    assert_eq!(corners[0].position, [-1, 1, -1]);
    assert_eq!(corners[7].tex_coords, [1, 1]);
    let idx = corner_cube_indices();
    assert_eq!(idx[0..6], [0, 2, 1, 0, 2, 3]);
    assert!(idx.iter().all(|i| (*i as usize) < CORNER_COUNT));
}

#[test]
fn scene_grid_has_twenty_seven_cubes() {
    let points = cube_grid(ROW_CUBE_COUNT);
    assert_eq!(points.len(), 27);
    assert_eq!(points[0], GridPoint { x: -4, y: -4, z: -4 });
    assert_eq!(points[1], GridPoint { x: -4, y: -4, z: 0 });
    assert_eq!(points[3], GridPoint { x: -4, y: 0, z: -4 });
    assert_eq!(points[9], GridPoint { x: 0, y: -4, z: -4 });
    assert_eq!(points[13], GridPoint { x: 0, y: 0, z: 0 });
    assert_eq!(points[26], GridPoint { x: 4, y: 4, z: 4 });
}

#[test]
fn single_cube_grid_is_the_origin() {
    assert_eq!(cube_grid(1), vec![GridPoint { x: 0, y: 0, z: 0 }]);
}

#[test]
fn even_grid_is_centred() {
    let points = cube_grid(2);
    assert_eq!(points.len(), 8);
    assert_eq!(points[0], GridPoint { x: -2, y: -2, z: -2 });
    assert_eq!(points[7], GridPoint { x: 2, y: 2, z: 2 });
    let sum: i32 = points.iter().map(|p| p.x + p.y + p.z).sum();
    assert_eq!(sum, 0);
}

#[test]
fn grid_point_to_array() {
    assert_eq!(GridPoint { x: 1, y: -2, z: 3 }.to_array(), [1, -2, 3]);
}

#[test]
fn empty_grid_has_no_cubes() {
    assert!(cube_grid(0).is_empty());
}
