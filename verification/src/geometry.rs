//! The unit cube as tables: 24 vertices, four to a face, their colours, and
//! the 36 indices of its 12 triangles. Coordinates and colour channels are
//! whole numbers; whoever uploads them converts them to floats.

use vstd::prelude::*;

verus! {

/// The vertices of one cube.
pub const VERTEX_COUNT: usize = 24;

/// The indices of one cube: two triangles for each of six faces.
pub const INDEX_COUNT: usize = 36;

/// The most vertices that 16-bit indices can tell apart.
pub const MAX_VERTICES: usize = 65536;

/// The corner coordinates, three to a vertex, face by face: front, back,
/// top, bottom, right, left.
pub open spec fn cube_vertices() -> Seq<i8> {
    seq![
        -1i8, -1i8, 1i8, 1i8, -1i8, 1i8, 1i8, 1i8, 1i8, -1i8, 1i8, 1i8,
        -1i8, -1i8, -1i8, -1i8, 1i8, -1i8, 1i8, 1i8, -1i8, 1i8, -1i8, -1i8,
        -1i8, 1i8, -1i8, -1i8, 1i8, 1i8, 1i8, 1i8, 1i8, 1i8, 1i8, -1i8,
        -1i8, -1i8, -1i8, 1i8, -1i8, -1i8, 1i8, -1i8, 1i8, -1i8, -1i8, 1i8,
        1i8, -1i8, -1i8, 1i8, 1i8, -1i8, 1i8, 1i8, 1i8, 1i8, -1i8, 1i8,
        -1i8, -1i8, -1i8, -1i8, -1i8, 1i8, -1i8, 1i8, 1i8, -1i8, 1i8, -1i8,
    ]
}

/// The place within its face of the vertex that the `k`-th index of a face
/// names: the face's two triangles share the diagonal from 0 to 2.
pub open spec fn corner_of(k: int) -> int {
    if k == 0 || k == 3 {
        0
    } else if k == 1 {
        1
    } else if k == 2 || k == 4 {
        2
    } else {
        3
    }
}

/// The `k`-th index of the cube.
pub open spec fn index_at(k: int) -> u16 {
    (4 * (k / 6) + corner_of(k % 6)) as u16
}

pub open spec fn cube_indices() -> Seq<u16> {
    Seq::new(INDEX_COUNT as nat, |k: int| index_at(k))
}

/// One channel (red, green, blue, alpha in this order) of the colour of a
/// face: white, red, green, blue, yellow, purple, all opaque.
pub open spec fn face_channel(face: int, channel: int) -> u8 {
    if channel == 3 || face == 0 {
        1
    } else if channel == 0 {
        if face == 1 || face == 4 || face == 5 {
            1
        } else {
            0
        }
    } else if channel == 1 {
        if face == 2 || face == 4 {
            1
        } else {
            0
        }
    } else {
        if face == 3 || face == 5 {
            1
        } else {
            0
        }
    }
}

/// The colours, four channels to a vertex; the four vertices of a face
/// share its colour.
pub open spec fn cube_colors() -> Seq<u8> {
    Seq::new(4 * VERTEX_COUNT as nat, |k: int| face_channel(k / 16, k % 4))
}

/// Every index names one of `vertex_count` vertices.
pub open spec fn indices_in_range(indices: Seq<u16>, vertex_count: int) -> bool {
    forall|k: int| 0 <= k < indices.len() ==> (#[trigger] indices[k]) < vertex_count
}

pub struct Geometry {
    pub vertices: Vec<i8>,
    pub indices: Vec<u16>,
}

fn corner(k: usize) -> (c: u16)
    requires
        k < 6,
    ensures
        c == corner_of(k as int),
{
    if k == 0 || k == 3 {
        0
    } else if k == 1 {
        1
    } else if k == 2 || k == 4 {
        2
    } else {
        3
    }
}

fn channel_of(face: usize, channel: usize) -> (c: u8)
    requires
        face < 6,
        channel < 4,
    ensures
        c == face_channel(face as int, channel as int),
{
    if channel == 3 || face == 0 {
        1
    } else if channel == 0 {
        if face == 1 || face == 4 || face == 5 {
            1
        } else {
            0
        }
    } else if channel == 1 {
        if face == 2 || face == 4 {
            1
        } else {
            0
        }
    } else {
        if face == 3 || face == 5 {
            1
        } else {
            0
        }
    }
}

/// The unit cube.
pub fn get_cube() -> (cube: Geometry)
    ensures
        cube.vertices@ == cube_vertices(),
        cube.indices@ == cube_indices(),
{
    let vertices: Vec<i8> = vec![
        -1i8, -1, 1, 1, -1, 1, 1, 1, 1, -1, 1, 1,
        -1, -1, -1, -1, 1, -1, 1, 1, -1, 1, -1, -1,
        -1, 1, -1, -1, 1, 1, 1, 1, 1, 1, 1, -1,
        -1, -1, -1, 1, -1, -1, 1, -1, 1, -1, -1, 1,
        1, -1, -1, 1, 1, -1, 1, 1, 1, 1, -1, 1,
        -1, -1, -1, -1, -1, 1, -1, 1, 1, -1, 1, -1,
    ];
    let mut indices: Vec<u16> = Vec::new();
    let mut k: usize = 0;
    while k < INDEX_COUNT
        invariant
            k <= INDEX_COUNT,
            indices@.len() == k,
            forall|m: int| 0 <= m < k ==> indices@[m] == index_at(m),
        decreases INDEX_COUNT - k,
    {
        let face: u16 = (k / 6) as u16;
        indices.push(4 * face + corner(k % 6));
        k = k + 1;
    }
    proof {
        assert(vertices@ =~= cube_vertices());
        assert(indices@ =~= cube_indices());
    }
    Geometry { vertices, indices }
}

/// The colours of the unit cube.
pub fn get_colors() -> (colors: Vec<u8>)
    ensures
        colors@ == cube_colors(),
{
    let mut colors: Vec<u8> = Vec::new();
    let mut k: usize = 0;
    while k < 4 * VERTEX_COUNT
        invariant
            k <= 4 * VERTEX_COUNT,
            colors@.len() == k,
            forall|m: int| 0 <= m < k ==> colors@[m] == face_channel(m / 16, m % 4),
        decreases 4 * VERTEX_COUNT - k,
    {
        colors.push(channel_of(k / 16, k % 4));
        k = k + 1;
    }
    proof {
        assert(colors@ =~= cube_colors());
    }
    colors
}

/// Every index of the unit cube names one of its 24 vertices, and its
/// vertices are few enough for 16-bit indices.
pub proof fn lemma_cube_indices_in_range()
    ensures
        cube_indices().len() == INDEX_COUNT,
        cube_vertices().len() == 3 * VERTEX_COUNT,
        indices_in_range(cube_indices(), VERTEX_COUNT as int),
        VERTEX_COUNT <= MAX_VERTICES,
{
    assert forall|k: int| 0 <= k < cube_indices().len() implies (#[trigger] cube_indices()[k])
        < VERTEX_COUNT by {
        assert(0 <= k / 6 < 6);
        assert(0 <= k % 6 < 6);
    }
}

}
