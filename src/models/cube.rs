use vstd::prelude::*;

use crate::models::object::{Mesh, Normal, Object, Vertex};

verus! {

/// Half the edge length of a cube.
pub const SIZE: i64 = 10;

/// One coordinate of a corner: `SIZE` past the centre, on the minus side when `minus`.
pub open spec fn corner_offset(minus: bool) -> int {
    if minus {
        -(SIZE as int)
    } else {
        SIZE as int
    }
}

/// Corner `k` of the cube centred at `c`: the bits of `k`, from high to low,
/// put the x, y and z coordinate on the minus side.
pub open spec fn cube_corner(c: (int, int, int), k: int) -> (int, int, int) {
    (
        c.0 + corner_offset(k >= 4),
        c.1 + corner_offset(k % 4 >= 2),
        c.2 + corner_offset(k % 2 == 1),
    )
}

/// The coordinates of a vertex as integers.
pub open spec fn point(v: Vertex) -> (int, int, int) {
    (v.position.0 as int, v.position.1 as int, v.position.2 as int)
}

/// The normal table every cube carries: the six face normals, then six corner diagonals.
pub open spec fn cube_normals() -> Seq<(int, int, int)> {
    seq![
        (0, 0, 1), (0, 0, -1), (1, 0, 0), (-1, 0, 0), (0, 1, 0), (0, -1, 0),
        (1, 1, 1), (1, 1, -1), (1, -1, 1), (1, -1, -1), (-1, 1, 1), (-1, 1, -1),
    ]
}

/// The four corners of each face, as the quad `(a, b, c, d)`.
pub open spec fn cube_faces() -> Seq<(u16, u16, u16, u16)> {
    seq![(0, 1, 2, 3), (0, 1, 4, 5), (4, 5, 6, 7), (2, 3, 6, 7), (0, 2, 4, 6), (1, 3, 5, 7)]
}

/// The index list of a cube: each face `(a, b, c, d)` gives the triangles
/// `(a, b, c)` and `(b, c, d)`, faces in order.
pub open spec fn cube_indices() -> Seq<u16> {
    Seq::new(
        36,
        |i: int|
            {
                let f = cube_faces()[i / 6];
                let j = i % 6;
                if j == 0 {
                    f.0
                } else if j == 1 || j == 3 {
                    f.1
                } else if j == 2 || j == 4 {
                    f.2
                } else {
                    f.3
                }
            },
    )
}

/// `o` is the cube mesh centred at `c`.
pub open spec fn is_cube_at(o: Mesh, c: (int, int, int)) -> bool {
    &&& o.vertices.len() == 8
    &&& forall|k: int| 0 <= k < 8 ==> point(#[trigger] o.vertices[k]) == cube_corner(c, k)
    &&& o.normals.len() == 12
    &&& forall|k: int|
        0 <= k < 12 ==> {
            let n = (#[trigger] o.normals[k]).normal;
            (n.0 as int, n.1 as int, n.2 as int) == cube_normals()[k]
        }
    &&& o.indices == cube_indices()
}

/// A centre coordinate for which every corner fits in an `i64`.
pub open spec fn fits_centre(p: i64) -> bool {
    i64::MIN + SIZE <= p <= i64::MAX - SIZE
}

fn vertices(pos: [i64; 3]) -> (r: Vec<Vertex>)
    requires
        fits_centre(pos[0]),
        fits_centre(pos[1]),
        fits_centre(pos[2]),
    ensures
        r@.len() == 8,
        forall|k: int|
            0 <= k < 8 ==> point(#[trigger] r@[k]) == cube_corner(
                (pos[0] as int, pos[1] as int, pos[2] as int),
                k,
            ),
{
    let mut r: Vec<Vertex> = Vec::new();
    r.push(Vertex { position: (SIZE + pos[0], SIZE + pos[1], SIZE + pos[2]) });
    r.push(Vertex { position: (SIZE + pos[0], SIZE + pos[1], -SIZE + pos[2]) });
    r.push(Vertex { position: (SIZE + pos[0], -SIZE + pos[1], SIZE + pos[2]) });
    r.push(Vertex { position: (SIZE + pos[0], -SIZE + pos[1], -SIZE + pos[2]) });
    r.push(Vertex { position: (-SIZE + pos[0], SIZE + pos[1], SIZE + pos[2]) });
    r.push(Vertex { position: (-SIZE + pos[0], SIZE + pos[1], -SIZE + pos[2]) });
    r.push(Vertex { position: (-SIZE + pos[0], -SIZE + pos[1], SIZE + pos[2]) });
    r.push(Vertex { position: (-SIZE + pos[0], -SIZE + pos[1], -SIZE + pos[2]) });
    r
}

/// The normal table of a cube.
pub fn normals() -> (r: Vec<Normal>)
    ensures
        r@.len() == 12,
        forall|k: int|
            0 <= k < 12 ==> {
                let n = (#[trigger] r@[k]).normal;
                (n.0 as int, n.1 as int, n.2 as int) == cube_normals()[k]
            },
{
    let mut r: Vec<Normal> = Vec::new();
    r.push(Normal { normal: (0, 0, 1) });
    r.push(Normal { normal: (0, 0, -1) });
    r.push(Normal { normal: (1, 0, 0) });
    r.push(Normal { normal: (-1, 0, 0) });
    r.push(Normal { normal: (0, 1, 0) });
    r.push(Normal { normal: (0, -1, 0) });
    r.push(Normal { normal: (1, 1, 1) });
    r.push(Normal { normal: (1, 1, -1) });
    r.push(Normal { normal: (1, -1, 1) });
    r.push(Normal { normal: (1, -1, -1) });
    r.push(Normal { normal: (-1, 1, 1) });
    r.push(Normal { normal: (-1, 1, -1) });
    r
}

/// The index list of a cube: two triangles per face.
pub fn indices() -> (r: Vec<u16>)
    ensures
        r@ == cube_indices(),
{
    let faces: [(u16, u16, u16, u16); 6] = [
        (0, 1, 2, 3),
        (0, 1, 4, 5),
        (4, 5, 6, 7),
        (2, 3, 6, 7),
        (0, 2, 4, 6),
        (1, 3, 5, 7),
    ];
    assert(faces@ =~= cube_faces());
    let mut r: Vec<u16> = Vec::new();
    let mut f: usize = 0;
    while f < 6
        invariant
            f <= 6,
            faces@ == cube_faces(),
            r@ == cube_indices().take(6 * f as int),
        decreases 6 - f,
    {
        let (a, b, c, d) = faces[f];
        r.push(a);
        r.push(b);
        r.push(c);
        r.push(b);
        r.push(c);
        r.push(d);
        proof {
            assert forall|i: int| 6 * f <= i < 6 * f + 6 implies #[trigger] (i / 6) == f && i % 6
                == i - 6 * f by {}
            assert(r@ =~= cube_indices().take(6 * (f + 1) as int));
        }
        f = f + 1;
    }
    assert(r@ =~= cube_indices());
    r
}

/// A cube mesh centred at `pos`.
pub fn new(pos: [i64; 3]) -> (r: Object)
    requires
        fits_centre(pos[0]),
        fits_centre(pos[1]),
        fits_centre(pos[2]),
    ensures
        is_cube_at(r@, (pos[0] as int, pos[1] as int, pos[2] as int)),
{
    Object::new(vertices(pos), normals(), indices())
}

} // verus!
