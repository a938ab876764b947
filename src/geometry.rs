use vstd::prelude::*;

verus! {

/// A vertex of the lit, textured cube: position, outward normal and texture
/// coordinates, each a small integer that the renderer turns into a float.
#[derive(Clone, Copy, Debug, PartialEq, Eq)]
pub struct CubeVertex {
    pub position: [i8; 3],
    pub normal: [i8; 3],
    pub tex_coords: [u8; 2],
}

/// A vertex of the quad that covers the whole screen: clip-space position
/// and texture coordinates.
#[derive(Clone, Copy, Debug, PartialEq, Eq)]
pub struct ScreenVertex {
    pub position: [i8; 2],
    pub tex_coords: [u8; 2],
}

/// A vertex of the cube drawn with one index buffer over its eight corners.
#[derive(Clone, Copy, Debug, PartialEq, Eq)]
pub struct CornerVertex {
    pub position: [i8; 3],
    pub tex_coords: [u8; 2],
}

/// Number of vertices of the lit cube: six faces of two triangles each.
pub const CUBE_VERTEX_COUNT: usize = 36;

/// Positions of the lit cube's vertices, three coordinates per vertex.
pub const CUBE_POSITIONS: [i8; 108] = [
    -1, -1, -1, 1, 1, -1, 1, -1, -1, 1, 1, -1, -1, -1, -1, -1, 1, -1,
    -1, -1, 1, 1, -1, 1, 1, 1, 1, 1, 1, 1, -1, 1, 1, -1, -1, 1,
    -1, 1, 1, -1, 1, -1, -1, -1, -1, -1, -1, -1, -1, -1, 1, -1, 1, 1,
    1, 1, 1, 1, -1, -1, 1, 1, -1, 1, -1, -1, 1, 1, 1, 1, -1, 1,
    -1, -1, -1, 1, -1, -1, 1, -1, 1, 1, -1, 1, -1, -1, 1, -1, -1, -1,
    -1, 1, -1, 1, 1, 1, 1, 1, -1, 1, 1, 1, -1, 1, -1, -1, 1, 1,
];

/// Outward normals of the lit cube's vertices, three coordinates per vertex.
pub const CUBE_NORMALS: [i8; 108] = [
    0, 0, -1, 0, 0, -1, 0, 0, -1, 0, 0, -1, 0, 0, -1, 0, 0, -1,
    0, 0, 1, 0, 0, 1, 0, 0, 1, 0, 0, 1, 0, 0, 1, 0, 0, 1,
    -1, 0, 0, -1, 0, 0, -1, 0, 0, -1, 0, 0, -1, 0, 0, -1, 0, 0,
    1, 0, 0, 1, 0, 0, 1, 0, 0, 1, 0, 0, 1, 0, 0, 1, 0, 0,
    0, -1, 0, 0, -1, 0, 0, -1, 0, 0, -1, 0, 0, -1, 0, 0, -1, 0,
    0, 1, 0, 0, 1, 0, 0, 1, 0, 0, 1, 0, 0, 1, 0, 0, 1, 0,
];

/// Texture coordinates of the lit cube's vertices, two per vertex.
pub const CUBE_TEX_COORDS: [u8; 72] = [
    0, 0, 1, 1, 1, 0, 1, 1, 0, 0, 0, 1,
    0, 0, 1, 0, 1, 1, 1, 1, 0, 1, 0, 0,
    1, 0, 1, 1, 0, 1, 0, 1, 0, 0, 1, 0,
    1, 0, 0, 1, 1, 1, 0, 1, 1, 0, 0, 0,
    0, 1, 1, 1, 1, 0, 1, 0, 0, 0, 0, 1,
    0, 1, 1, 0, 1, 1, 1, 0, 0, 1, 0, 0,
];

/// The vertex `k` of the lit cube, read from the three flat tables.
pub open spec fn cube_vertex(k: int) -> CubeVertex {
    CubeVertex {
        position: [CUBE_POSITIONS[3 * k], CUBE_POSITIONS[3 * k + 1], CUBE_POSITIONS[3 * k + 2]],
        normal: [CUBE_NORMALS[3 * k], CUBE_NORMALS[3 * k + 1], CUBE_NORMALS[3 * k + 2]],
        tex_coords: [CUBE_TEX_COORDS[2 * k], CUBE_TEX_COORDS[2 * k + 1]],
    }
}

/// Along each axis where the normal is not zero, the position has the
/// normal's coordinate: the vertex lies on the face the normal points out of.
pub open spec fn lies_on_normal_face(v: CubeVertex) -> bool {
    &&& (v.normal[0] != 0 ==> v.position[0] == v.normal[0])
    &&& (v.normal[1] != 0 ==> v.position[1] == v.normal[1])
    &&& (v.normal[2] != 0 ==> v.position[2] == v.normal[2])
}

/// The normal is one of the six unit axis vectors.
pub open spec fn is_axis_unit(n: [i8; 3]) -> bool {
    (n[0] == 0 && n[1] == 0 && (n[2] == 1 || n[2] == -1))
    || (n[0] == 0 && n[2] == 0 && (n[1] == 1 || n[1] == -1))
    || (n[1] == 0 && n[2] == 0 && (n[0] == 1 || n[0] == -1))
}

/// The 36 vertices of the lit cube, one triangle after another.
pub fn cube_vertices() -> (r: Vec<CubeVertex>)
    ensures
        r.len() == CUBE_VERTEX_COUNT,
        forall|k: int| 0 <= k < CUBE_VERTEX_COUNT ==> r[k] == cube_vertex(k),
{
    let positions = CUBE_POSITIONS;
    let normals = CUBE_NORMALS;
    let tex_coords = CUBE_TEX_COORDS;
    let mut vertices: Vec<CubeVertex> = Vec::with_capacity(CUBE_VERTEX_COUNT);
    let mut pos_i: usize = 0;
    let mut tex_i: usize = 0;
    let mut k: usize = 0;
    while k < CUBE_VERTEX_COUNT
        invariant
            k <= CUBE_VERTEX_COUNT,
            pos_i == 3 * k,
            tex_i == 2 * k,
            positions == CUBE_POSITIONS,
            normals == CUBE_NORMALS,
            tex_coords == CUBE_TEX_COORDS,
            vertices.len() == k,
            forall|j: int| 0 <= j < k ==> vertices[j] == cube_vertex(j),
        decreases CUBE_VERTEX_COUNT - k,
    {
        vertices.push(CubeVertex {
            position: [positions[pos_i], positions[pos_i + 1], positions[pos_i + 2]],
            normal: [normals[pos_i], normals[pos_i + 1], normals[pos_i + 2]],
            tex_coords: [tex_coords[tex_i], tex_coords[tex_i + 1]],
        });
        pos_i = pos_i + 3;
        tex_i = tex_i + 2;
        k = k + 1;
    }
    vertices
}

/// Every vertex of the lit cube lies on the face that its normal points out
/// of, and that normal is a unit axis vector.
pub proof fn lemma_cube_vertices_on_their_faces()
    ensures
        forall|k: int| 0 <= k < CUBE_VERTEX_COUNT ==>
            is_axis_unit(#[trigger] cube_vertex(k).normal) && lies_on_normal_face(cube_vertex(k)),
{
    assert forall|k: int| 0 <= k < CUBE_VERTEX_COUNT implies
        is_axis_unit(#[trigger] cube_vertex(k).normal) && lies_on_normal_face(cube_vertex(k)) by {
        lemma_cube_vertex_on_its_face(k);
    }
}

proof fn lemma_cube_vertex_on_its_face(k: int)
    requires
        0 <= k < CUBE_VERTEX_COUNT,
    ensures
        is_axis_unit(cube_vertex(k).normal),
        lies_on_normal_face(cube_vertex(k)),
{
    if k == 0 {
    } else if k == 1 {
    } else if k == 2 {
    } else if k == 3 {
    } else if k == 4 {
    } else if k == 5 {
    } else if k == 6 {
    } else if k == 7 {
    } else if k == 8 {
    } else if k == 9 {
    } else if k == 10 {
    } else if k == 11 {
    } else if k == 12 {
    } else if k == 13 {
    } else if k == 14 {
    } else if k == 15 {
    } else if k == 16 {
    } else if k == 17 {
    } else if k == 18 {
    } else if k == 19 {
    } else if k == 20 {
    } else if k == 21 {
    } else if k == 22 {
    } else if k == 23 {
    } else if k == 24 {
    } else if k == 25 {
    } else if k == 26 {
    } else if k == 27 {
    } else if k == 28 {
    } else if k == 29 {
    } else if k == 30 {
    } else if k == 31 {
    } else if k == 32 {
    } else if k == 33 {
    } else if k == 34 {
    } else {
        assert(k == 35);
        }
}

/// Number of corners of the skybox: four for each of its six faces.
pub const SKYBOX_CORNER_COUNT: usize = 24;

/// Number of indices of the skybox: two triangles for each face.
pub const SKYBOX_INDEX_COUNT: usize = 36;

/// Corners of the skybox, face after face: front, right, back, left, bottom, top.
pub const SKYBOX_CORNERS: [[i8; 3]; 24] = [
    [-1, -1, 1], [1, -1, 1], [1, 1, 1], [-1, 1, 1],
    [1, -1, 1], [1, -1, -1], [1, 1, -1], [1, 1, 1],
    [-1, -1, -1], [-1, 1, -1], [1, 1, -1], [1, -1, -1],
    [-1, -1, 1], [-1, 1, 1], [-1, 1, -1], [-1, -1, -1],
    [-1, -1, 1], [-1, -1, -1], [1, -1, -1], [1, -1, 1],
    [-1, 1, 1], [1, 1, 1], [1, 1, -1], [-1, 1, -1],
];

/// Corner order, within one face, of the two triangles that cover it.
pub const QUAD_TRIANGLES: [u16; 6] = [0, 2, 1, 0, 3, 2];

/// The axis that skybox face `f` is perpendicular to (0 is x, 1 is y, 2 is z).
pub open spec fn skybox_face_axis(f: int) -> int {
    if f == 0 || f == 2 {
        2
    } else if f == 1 || f == 3 {
        0
    } else {
        1
    }
}

/// The side of the cube, along its axis, on which skybox face `f` lies.
pub open spec fn skybox_face_side(f: int) -> int {
    if f == 0 || f == 1 || f == 5 {
        1
    } else {
        -1
    }
}

/// The corners of the skybox, four for each face.
pub fn skybox_corners() -> (r: Vec<[i8; 3]>)
    ensures
        r@ == SKYBOX_CORNERS@,
{
    let table = SKYBOX_CORNERS;
    let mut corners: Vec<[i8; 3]> = Vec::with_capacity(SKYBOX_CORNER_COUNT);
    let mut k: usize = 0;
    while k < SKYBOX_CORNER_COUNT
        invariant
            k <= SKYBOX_CORNER_COUNT,
            table == SKYBOX_CORNERS,
            corners@ == SKYBOX_CORNERS@.take(k as int),
        decreases SKYBOX_CORNER_COUNT - k,
    {
        corners.push(table[k]);
        k = k + 1;
        assert(corners@ =~= SKYBOX_CORNERS@.take(k as int));
    }
    assert(SKYBOX_CORNERS@.take(SKYBOX_CORNER_COUNT as int) =~= SKYBOX_CORNERS@);
    corners
}

/// Each skybox corner lies on its face's side of the cube, and every
/// coordinate is one or minus one.
pub proof fn lemma_skybox_corners_on_their_faces()
    ensures
        forall|k: int| #![trigger SKYBOX_CORNERS[k]] 0 <= k < SKYBOX_CORNER_COUNT ==> {
            &&& SKYBOX_CORNERS[k][skybox_face_axis(k / 4)] == skybox_face_side(k / 4)
            &&& forall|i: int| 0 <= i < 3 ==> (SKYBOX_CORNERS[k][i] == 1 || SKYBOX_CORNERS[k][i] == -1)
        },
{
    assert forall|k: int| #![trigger SKYBOX_CORNERS[k]] 0 <= k < SKYBOX_CORNER_COUNT implies {
        &&& SKYBOX_CORNERS[k][skybox_face_axis(k / 4)] == skybox_face_side(k / 4)
        &&& forall|i: int| 0 <= i < 3 ==> (SKYBOX_CORNERS[k][i] == 1 || SKYBOX_CORNERS[k][i] == -1)
    } by {
        lemma_skybox_corner_on_its_face(k);
    }
}

proof fn lemma_skybox_corner_on_its_face(k: int)
    requires
        0 <= k < SKYBOX_CORNER_COUNT,
    ensures
        SKYBOX_CORNERS[k][skybox_face_axis(k / 4)] == skybox_face_side(k / 4),
        forall|i: int| 0 <= i < 3 ==> (SKYBOX_CORNERS[k][i] == 1 || SKYBOX_CORNERS[k][i] == -1),
{
    if k == 0 {
    } else if k == 1 {
    } else if k == 2 {
    } else if k == 3 {
    } else if k == 4 {
    } else if k == 5 {
    } else if k == 6 {
    } else if k == 7 {
    } else if k == 8 {
    } else if k == 9 {
    } else if k == 10 {
    } else if k == 11 {
    } else if k == 12 {
    } else if k == 13 {
    } else if k == 14 {
    } else if k == 15 {
    } else if k == 16 {
    } else if k == 17 {
    } else if k == 18 {
    } else if k == 19 {
    } else if k == 20 {
    } else if k == 21 {
    } else if k == 22 {
    } else {
        assert(k == 23);
    }
}

/// The skybox's index list: face `f` is covered by two triangles over its
/// own four corners, `4 * f` to `4 * f + 3`.
pub fn skybox_indices() -> (r: Vec<u16>)
    ensures
        r.len() == SKYBOX_INDEX_COUNT,
        forall|f: int, j: int| 0 <= f < 6 && 0 <= j < 6 ==>
            #[trigger] r[6 * f + j] == 4 * f + QUAD_TRIANGLES[j],
{
    let quad = QUAD_TRIANGLES;
    let mut indices: Vec<u16> = Vec::with_capacity(SKYBOX_INDEX_COUNT);
    let mut f: u16 = 0;
    while f < 6
        invariant
            f <= 6,
            quad == QUAD_TRIANGLES,
            indices.len() == 6 * f,
            forall|g: int, j: int| 0 <= g < f && 0 <= j < 6 ==>
                #[trigger] indices[6 * g + j] == 4 * g + QUAD_TRIANGLES[j],
        decreases 6 - f,
    {
        let mut j: usize = 0;
        while j < 6
            invariant
                f < 6,
                j <= 6,
                quad == QUAD_TRIANGLES,
                indices.len() == 6 * f + j,
                forall|g: int, i: int| 0 <= g < f && 0 <= i < 6 ==>
                    #[trigger] indices[6 * g + i] == 4 * g + QUAD_TRIANGLES[i],
                forall|i: int| 0 <= i < j ==> #[trigger] indices[6 * f + i] == 4 * f + QUAD_TRIANGLES[i],
            decreases 6 - j,
        {
            assert(quad[j as int] <= 3);
            indices.push(4 * f + quad[j]);
            j = j + 1;
        }
        f = f + 1;
    }
    indices
}

/// Positions of the six vertices of the two triangles that cover the screen.
pub const SCREEN_QUAD_POSITIONS: [[i8; 2]; 6] = [
    [-1, 1], [-1, -1], [1, -1],
    [-1, 1], [1, -1], [1, 1],
];

/// The texture coordinate that shows clip-space coordinate `p` (minus one
/// or one) of the screen: the left or lower edge of the texture for minus
/// one, the right or upper edge for one.
pub open spec fn screen_tex_coord(p: i8) -> u8 {
    if p == 1 { 1 } else { 0 }
}

/// The two triangles that cover the screen, each vertex showing the
/// matching corner of the off-screen frame's texture.
pub fn screen_quad() -> (r: Vec<ScreenVertex>)
    ensures
        r.len() == 6,
        forall|k: int| 0 <= k < 6 ==> {
            &&& (#[trigger] r[k]).position == SCREEN_QUAD_POSITIONS[k]
            &&& r[k].tex_coords == [screen_tex_coord(r[k].position[0]), screen_tex_coord(r[k].position[1])]
        },
{
    let table = SCREEN_QUAD_POSITIONS;
    let mut quad: Vec<ScreenVertex> = Vec::with_capacity(6);
    let mut k: usize = 0;
    while k < 6
        invariant
            k <= 6,
            table == SCREEN_QUAD_POSITIONS,
            quad.len() == k,
            forall|i: int| 0 <= i < k ==> {
                &&& (#[trigger] quad[i]).position == SCREEN_QUAD_POSITIONS[i]
                &&& quad[i].tex_coords == [screen_tex_coord(quad[i].position[0]), screen_tex_coord(quad[i].position[1])]
            },
        decreases 6 - k,
    {
        let p = table[k];
        let u: u8 = if p[0] == 1 { 1 } else { 0 };
        let v: u8 = if p[1] == 1 { 1 } else { 0 };
        quad.push(ScreenVertex { position: p, tex_coords: [u, v] });
        k = k + 1;
    }
    quad
}

/// Number of corners of the cube drawn through an index buffer.
pub const CORNER_COUNT: usize = 8;

/// Positions of the indexed cube's corners.
pub const CORNER_POSITIONS: [[i8; 3]; 8] = [
    [-1, 1, -1], [-1, -1, -1], [1, -1, -1], [1, 1, -1],
    [-1, 1, 1], [-1, -1, 1], [1, -1, 1], [1, 1, 1],
];

/// Texture coordinates of the indexed cube's corners.
pub const CORNER_TEX_COORDS: [[u8; 2]; 8] = [
    [1, 0], [1, 1], [0, 1], [0, 0],
    [0, 1], [0, 0], [1, 0], [1, 1],
];

/// Triangles of the indexed cube, three corner numbers each.
pub const CORNER_INDICES: [u8; 36] = [
    0, 2, 1, 0, 2, 3, 0, 7, 3, 0, 7, 4, 1, 4, 0, 1, 4, 5,
    2, 5, 1, 2, 5, 6, 3, 6, 2, 3, 6, 7, 4, 6, 5, 4, 6, 7,
];

/// The eight corners of the indexed cube.
pub fn corner_cube_vertices() -> (r: Vec<CornerVertex>)
    ensures
        r.len() == CORNER_COUNT,
        forall|k: int| 0 <= k < CORNER_COUNT ==> (#[trigger] r[k]) == (CornerVertex {
            position: CORNER_POSITIONS[k],
            tex_coords: CORNER_TEX_COORDS[k],
        }),
{
    let positions = CORNER_POSITIONS;
    let tex_coords = CORNER_TEX_COORDS;
    let mut corners: Vec<CornerVertex> = Vec::with_capacity(CORNER_COUNT);
    let mut k: usize = 0;
    while k < CORNER_COUNT
        invariant
            k <= CORNER_COUNT,
            positions == CORNER_POSITIONS,
            tex_coords == CORNER_TEX_COORDS,
            corners.len() == k,
            forall|i: int| 0 <= i < k ==> (#[trigger] corners[i]) == (CornerVertex {
                position: CORNER_POSITIONS[i],
                tex_coords: CORNER_TEX_COORDS[i],
            }),
        decreases CORNER_COUNT - k,
    {
        corners.push(CornerVertex { position: positions[k], tex_coords: tex_coords[k] });
        k = k + 1;
    }
    corners
}

/// The index list of the indexed cube; every index names one of its corners.
pub fn corner_cube_indices() -> (r: [u8; 36])
    ensures
        r == CORNER_INDICES,
        forall|k: int| 0 <= k < 36 ==> (#[trigger] r[k] as int) < CORNER_COUNT,
{
    let r = CORNER_INDICES;
    assert forall|k: int| 0 <= k < 36 implies (#[trigger] r[k] as int) < CORNER_COUNT by {
        lemma_corner_index_in_range(k);
    }
    r
}

proof fn lemma_corner_index_in_range(k: int)
    requires
        0 <= k < 36,
    ensures
        (CORNER_INDICES[k] as int) < CORNER_COUNT,
{
    if k == 0 {
    } else if k == 1 {
    } else if k == 2 {
    } else if k == 3 {
    } else if k == 4 {
    } else if k == 5 {
    } else if k == 6 {
    } else if k == 7 {
    } else if k == 8 {
    } else if k == 9 {
    } else if k == 10 {
    } else if k == 11 {
    } else if k == 12 {
    } else if k == 13 {
    } else if k == 14 {
    } else if k == 15 {
    } else if k == 16 {
    } else if k == 17 {
    } else if k == 18 {
    } else if k == 19 {
    } else if k == 20 {
    } else if k == 21 {
    } else if k == 22 {
    } else if k == 23 {
    } else if k == 24 {
    } else if k == 25 {
    } else if k == 26 {
    } else if k == 27 {
    } else if k == 28 {
    } else if k == 29 {
    } else if k == 30 {
    } else if k == 31 {
    } else if k == 32 {
    } else if k == 33 {
    } else if k == 34 {
    } else {
        assert(k == 35);
    }
}

} // verus!
