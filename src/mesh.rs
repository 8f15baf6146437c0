use vstd::prelude::*;
use vstd::arithmetic::div_mod::{
    lemma_fundamental_div_mod, lemma_fundamental_div_mod_converse, lemma_mod_pos_bound,
};

verus! {

/// A mesh vertex with exact coordinates.
///
/// `pos` is homogeneous and `tex_coords` are numerators over `denom`, so the
/// point a vertex stands for is `pos[i] / denom`; `color` and `normal` are
/// whole numbers (the normal is a face direction with `w == 1`).
#[derive(Clone, Copy, Debug, PartialEq, Eq)]
pub struct Vertex {
    pub pos: [i32; 4],
    pub color: [i32; 4],
    pub normal: [i32; 4],
    pub tex_coords: [i32; 2],
    pub denom: u32,
}

/// An indexed triangle list.
pub struct Mesh {
    pub vertices: Vec<Vertex>,
    pub indices: Vec<u32>,
}

/// Size in bytes of one vertex record on the GPU: four, four, four and two
/// 32-bit floats.
pub const VERTEX_STRIDE: u64 = 56;

/// The values of `s` as mathematical integers.
pub open spec fn ints(s: Seq<i32>) -> Seq<int> {
    s.map_values(|x: i32| x as int)
}

pub open spec fn white() -> Seq<int> {
    seq![1int, 1, 1, 1]
}

// ---------------------------------------------------------------- cube

/// Corner `k` (0..24) of the cube: four corners for each of the six faces,
/// listed face after face.
pub open spec fn cube_corner(k: int) -> (int, int, int) {
    if k == 0 { (-1, -1, 1) }
    else if k == 1 { (1, -1, 1) }
    else if k == 2 { (1, 1, 1) }
    else if k == 3 { (-1, 1, 1) }
    else if k == 4 { (-1, 1, -1) }
    else if k == 5 { (1, 1, -1) }
    else if k == 6 { (1, -1, -1) }
    else if k == 7 { (-1, -1, -1) }
    else if k == 8 { (1, -1, -1) }
    else if k == 9 { (1, 1, -1) }
    else if k == 10 { (1, 1, 1) }
    else if k == 11 { (1, -1, 1) }
    else if k == 12 { (-1, -1, 1) }
    else if k == 13 { (-1, 1, 1) }
    else if k == 14 { (-1, 1, -1) }
    else if k == 15 { (-1, -1, -1) }
    else if k == 16 { (1, 1, -1) }
    else if k == 17 { (-1, 1, -1) }
    else if k == 18 { (-1, 1, 1) }
    else if k == 19 { (1, 1, 1) }
    else if k == 20 { (1, -1, 1) }
    else if k == 21 { (-1, -1, 1) }
    else if k == 22 { (-1, -1, -1) }
    else { (1, -1, -1) }
}

/// Outward normal of cube face `f` (0..6).
pub open spec fn cube_normal(f: int) -> (int, int, int) {
    if f == 0 { (0, 0, 1) }
    else if f == 1 { (0, 0, -1) }
    else if f == 2 { (1, 0, 0) }
    else if f == 3 { (-1, 0, 0) }
    else if f == 4 { (0, 1, 0) }
    else { (0, -1, 0) }
}

/// Texture coordinates of corner `c` (0..4) of a face.
pub open spec fn quad_tex(c: int) -> Seq<int> {
    if c == 0 { seq![0int, 0] }
    else if c == 1 { seq![1int, 0] }
    else if c == 2 { seq![0int, 1] }
    else { seq![1int, 1] }
}

/// The two triangles of a quad with corners 0..4: (0, 1, 2) and (2, 3, 0),
/// which share the diagonal from corner 0 to corner 2.
pub open spec fn quad_corner(j: int) -> int {
    if j == 0 { 0 }
    else if j == 1 { 1 }
    else if j == 2 { 2 }
    else if j == 3 { 2 }
    else if j == 4 { 3 }
    else { 0 }
}

pub open spec fn cube_vertex(v: Vertex, k: int) -> bool {
    &&& ints(v.pos@) == seq![cube_corner(k).0, cube_corner(k).1, cube_corner(k).2, 1]
    &&& ints(v.normal@) == seq![cube_normal(k / 4).0, cube_normal(k / 4).1, cube_normal(k / 4).2, 1]
    &&& ints(v.color@) == white()
    &&& ints(v.tex_coords@) == quad_tex(k % 4)
    &&& v.denom == 1
}

/// Index `i` (0..36) of the cube's index list.
pub open spec fn cube_index(i: int) -> int {
    4 * (i / 6) + quad_corner(i % 6)
}

// ---------------------------------------------------------------- plane

/// The denominator of every plane coordinate: the resolution, or 1 for the
/// single-vertex plane of resolution 0.
pub open spec fn plane_denom(r: int) -> int {
    if r == 0 { 1 } else { r }
}

/// Vertex `k` of a plane of resolution `r` lies at grid point
/// `(k / (r + 1), k % (r + 1))` of the unit square at `z == 0`, faces `+z`,
/// and takes its texture coordinates from that point.
pub open spec fn plane_vertex(v: Vertex, r: int, k: int) -> bool {
    let a = k / (r + 1);
    let b = k % (r + 1);
    &&& ints(v.pos@) == seq![a, b, 0, plane_denom(r)]
    &&& ints(v.normal@) == seq![0int, 0, 1, 1]
    &&& ints(v.color@) == white()
    &&& ints(v.tex_coords@) == seq![a, b]
    &&& v.denom == plane_denom(r)
}

/// Index `i` (0..6 r²) of a plane of resolution `r`: cell `c = i / 6` is
/// cell `(x, y) = (c / r, c % r)` with corners `k0 = y (r + 1) + x`,
/// `k1 = k0 + 1`, `k2 = k0 + r + 1`, `k3 = k2 + 1`, drawn as the triangles
/// (k0, k2, k1) and (k2, k3, k1).
pub open spec fn plane_index(r: int, i: int) -> int {
    let c = i / 6;
    let x = c / r;
    let y = c % r;
    let k0 = y * (r + 1) + x;
    let j = i % 6;
    if j == 0 { k0 }
    else if j == 1 { k0 + r + 1 }
    else if j == 2 { k0 + 1 }
    else if j == 3 { k0 + r + 1 }
    else if j == 4 { k0 + r + 2 }
    else { k0 + 1 }
}

/// Where vertex `k` of a plane of resolution `r` lies, in units of `1 / r`.
pub open spec fn plane_point(r: int, k: int) -> (int, int, int) {
    (k / (r + 1), k % (r + 1), 0)
}

// ---------------------------------------------------------------- winding

pub open spec fn sub3(a: (int, int, int), b: (int, int, int)) -> (int, int, int) {
    (a.0 - b.0, a.1 - b.1, a.2 - b.2)
}

pub open spec fn cross(u: (int, int, int), v: (int, int, int)) -> (int, int, int) {
    (u.1 * v.2 - u.2 * v.1, u.2 * v.0 - u.0 * v.2, u.0 * v.1 - u.1 * v.0)
}

pub open spec fn dot(u: (int, int, int), n: (int, int, int)) -> int {
    u.0 * n.0 + u.1 * n.1 + u.2 * n.2
}

/// The triangle `(k0, k1, k2)` winds counter-clockwise seen from the side
/// that `n` points to.
pub open spec fn winds_towards(
    k0: (int, int, int),
    k1: (int, int, int),
    k2: (int, int, int),
    n: (int, int, int),
) -> bool {
    dot(cross(sub3(k1, k0), sub3(k2, k0)), n) > 0
}

impl Mesh {
    pub fn new(vertices: Vec<Vertex>, indices: Vec<u32>) -> (m: Mesh)
        ensures
            m.vertices@ == vertices@,
            m.indices@ == indices@,
    {
        Mesh { vertices, indices }
    }

    /// Appends the cube `[-1, 1]³`: 24 vertices, four per face with the
    /// face's normal, and 36 indices, two triangles per face. The indices
    /// count from 0, so the cube is meant for an empty mesh.
    pub fn generate_cube(&mut self)
        ensures
            final(self).vertices@.len() == old(self).vertices@.len() + 24,
            final(self).vertices@.subrange(0, old(self).vertices@.len() as int)
                == old(self).vertices@,
            forall|k: int|
                0 <= k < 24 ==> cube_vertex(
                    #[trigger] final(self).vertices@[old(self).vertices@.len() + k],
                    k,
                ),
            final(self).indices@.len() == old(self).indices@.len() + 36,
            final(self).indices@.subrange(0, old(self).indices@.len() as int)
                == old(self).indices@,
            forall|i: int|
                0 <= i < 36 ==> #[trigger] final(self).indices@[old(self).indices@.len() + i]
                    == cube_index(i),
    {
        let ghost v0 = self.vertices@.len();
        let ghost i0 = self.indices@.len();
        let mut k: usize = 0;
        while k < 24
            invariant
                k <= 24,
                self.vertices@.len() == v0 + k,
                self.vertices@.subrange(0, v0 as int) == old(self).vertices@,
                self.indices@ == old(self).indices@,
                forall|m: int| 0 <= m < k ==> cube_vertex(#[trigger] self.vertices@[v0 + m], m),
            decreases 24 - k,
        {
            let v = cube_vertex_at(k);
            self.vertices.push(v);
            k = k + 1;
        }
        let mut i: u32 = 0;
        while i < 36
            invariant
                i <= 36,
                self.vertices@.len() == v0 + 24,
                self.vertices@.subrange(0, v0 as int) == old(self).vertices@,
                forall|m: int| 0 <= m < 24 ==> cube_vertex(#[trigger] self.vertices@[v0 + m], m),
                self.indices@.len() == i0 + i,
                self.indices@.subrange(0, i0 as int) == old(self).indices@,
                forall|m: int| 0 <= m < i ==> #[trigger] self.indices@[i0 + m] == cube_index(m),
            decreases 36 - i,
        {
            let c = quad_corner_at(i % 6);
            self.indices.push(4 * (i / 6) + c);
            i = i + 1;
        }
    }

    /// Appends a plane of `resolution × resolution` cells over the unit
    /// square at `z == 0`: `(resolution + 1)²` vertices and
    /// `6 · resolution²` indices. Resolution 0 gives the single vertex at the
    /// origin and no index. The indices count from 0, so the plane is meant
    /// for an empty mesh.
    pub fn generate_plane(&mut self, resolution: u32)
        requires
            resolution <= 65535,
        ensures
            final(self).vertices@.len() == old(self).vertices@.len() + (resolution + 1) * (
            resolution + 1),
            final(self).vertices@.subrange(0, old(self).vertices@.len() as int)
                == old(self).vertices@,
            forall|k: int|
                0 <= k < (resolution + 1) * (resolution + 1) ==> plane_vertex(
                    #[trigger] final(self).vertices@[old(self).vertices@.len() + k],
                    resolution as int,
                    k,
                ),
            final(self).indices@.len() == old(self).indices@.len() + 6 * resolution
                * resolution,
            final(self).indices@.subrange(0, old(self).indices@.len() as int)
                == old(self).indices@,
            forall|i: int|
                0 <= i < 6 * resolution * resolution
                    ==> #[trigger] final(self).indices@[old(self).indices@.len() + i]
                    == plane_index(resolution as int, i),
    {
        let ghost v0 = self.vertices@.len();
        let ghost i0 = self.indices@.len();
        let ghost r = resolution as int;
        let side: u64 = resolution as u64 + 1;
        let denom: u32 = if resolution == 0 { 1 } else { resolution };
        let mut x: u64 = 0;
        while x < side
            invariant
                side == r + 1,
                r <= 65535,
                denom == plane_denom(r),
                x <= side,
                self.vertices@.len() == v0 + x * side,
                self.vertices@.subrange(0, v0 as int) == old(self).vertices@,
                self.indices@ == old(self).indices@,
                forall|m: int|
                    0 <= m < x * side ==> plane_vertex(#[trigger] self.vertices@[v0 + m], r, m),
            decreases side - x,
        {
            let mut y: u64 = 0;
            while y < side
                invariant
                    side == r + 1,
                    r <= 65535,
                    denom == plane_denom(r),
                    x < side,
                    y <= side,
                    self.vertices@.len() == v0 + x * side + y,
                    self.vertices@.subrange(0, v0 as int) == old(self).vertices@,
                    self.indices@ == old(self).indices@,
                    forall|m: int|
                        0 <= m < x * side + y ==> plane_vertex(
                            #[trigger] self.vertices@[v0 + m],
                            r,
                            m,
                        ),
                decreases side - y,
            {
                let v = Vertex {
                    pos: [x as i32, y as i32, 0, denom as i32],
                    color: [1, 1, 1, 1],
                    normal: [0, 0, 1, 1],
                    tex_coords: [x as i32, y as i32],
                    denom,
                };
                proof {
                    lemma_fundamental_div_mod_converse(x * side + y, side as int, x as int, y as int);
                    assert(ints(v.pos@) =~= seq![x as int, y as int, 0, plane_denom(r)]);
                    assert(ints(v.normal@) =~= seq![0int, 0, 1, 1]);
                    assert(ints(v.color@) =~= white());
                    assert(ints(v.tex_coords@) =~= seq![x as int, y as int]);
                    assert(plane_vertex(v, r, x * side + y));
                }
                self.vertices.push(v);
                y = y + 1;
            }
            proof {
                assert((x + 1) * side == x * side + side) by (nonlinear_arith);
            }
            x = x + 1;
        }
        proof {
            assert(self.vertices@.len() == v0 + (r + 1) * (r + 1));
        }
        let res: u64 = resolution as u64;
        let mut cx: u64 = 0;
        while cx < res
            invariant
                side == r + 1,
                res == r,
                r <= 65535,
                cx <= res,
                self.vertices@.len() == v0 + (r + 1) * (r + 1),
                self.vertices@.subrange(0, v0 as int) == old(self).vertices@,
                forall|m: int|
                    0 <= m < (r + 1) * (r + 1) ==> plane_vertex(
                        #[trigger] self.vertices@[v0 + m],
                        r,
                        m,
                    ),
                self.indices@.len() == i0 + 6 * (cx * res),
                self.indices@.subrange(0, i0 as int) == old(self).indices@,
                forall|m: int|
                    0 <= m < 6 * (cx * res) ==> #[trigger] self.indices@[i0 + m]
                        == plane_index(r, m),
            decreases res - cx,
        {
            let mut cy: u64 = 0;
            while cy < res
                invariant
                    side == r + 1,
                    res == r,
                    r <= 65535,
                    cx < res,
                    cy <= res,
                    self.vertices@.len() == v0 + (r + 1) * (r + 1),
                    self.vertices@.subrange(0, v0 as int) == old(self).vertices@,
                    forall|m: int|
                        0 <= m < (r + 1) * (r + 1) ==> plane_vertex(
                            #[trigger] self.vertices@[v0 + m],
                            r,
                            m,
                        ),
                    self.indices@.len() == i0 + 6 * (cx * res + cy),
                    self.indices@.subrange(0, i0 as int) == old(self).indices@,
                    forall|m: int|
                        0 <= m < 6 * (cx * res + cy) ==> #[trigger] self.indices@[i0 + m]
                            == plane_index(r, m),
                decreases res - cy,
            {
                proof {
                    lemma_plane_cell_fits(r, cx as int, cy as int);
                }
                let k0: u64 = cy * side + cx;
                let k2: u64 = k0 + side;
                let ghost base = 6 * (cx * res + cy);
                proof {
                    lemma_plane_cell_indices(r, cx as int, cy as int);
                }
                self.indices.push(k0 as u32);
                self.indices.push(k2 as u32);
                self.indices.push((k0 + 1) as u32);
                self.indices.push(k2 as u32);
                self.indices.push((k2 + 1) as u32);
                self.indices.push((k0 + 1) as u32);
                proof {
                    assert forall|m: int|
                        0 <= m < 6 * (cx * res + cy + 1) implies #[trigger] self.indices@[i0 + m]
                        == plane_index(r, m) by {
                        if m >= base {
                            assert(base + (m - base) == m);
                        }
                    }
                }
                cy = cy + 1;
            }
            proof {
                assert((cx + 1) * res == cx * res + res) by (nonlinear_arith);
            }
            cx = cx + 1;
        }
        proof {
            assert(6 * (r * r) == 6 * r * r) by (nonlinear_arith);
        }
    }

    /// The number of indices, as the draw call takes it.
    pub fn index_len(&self) -> (n: u32)
        requires
            self.indices@.len() <= u32::MAX,
        ensures
            n == self.indices@.len(),
    {
        self.indices.len() as u32
    }
}

/// The corners of cell `(x, y)` of a plane of resolution `r` are vertices of
/// that plane.
proof fn lemma_plane_cell_fits(r: int, x: int, y: int)
    requires
        0 <= x < r,
        0 <= y < r,
        r <= 65535,
    ensures
        y * (r + 1) + x + r + 2 < (r + 1) * (r + 1),
        (r + 1) * (r + 1) <= 0x1_0000_0000,
{
    assert(y * (r + 1) <= (r - 1) * (r + 1)) by (nonlinear_arith)
        requires 0 <= y < r;
    assert((r + 1) * (r + 1) <= 65536 * 65536) by (nonlinear_arith)
        requires 0 <= r <= 65535;
    assert((r - 1) * (r + 1) + r + r + 2 == (r + 1) * (r + 1)) by (nonlinear_arith);
}

/// The six indices that cell `(x, y)` appends are those that `plane_index`
/// gives for its positions.
proof fn lemma_plane_cell_indices(r: int, x: int, y: int)
    requires
        0 <= x < r,
        0 <= y < r,
    ensures
        forall|j: int|
            0 <= j < 6 ==> {
                let k0 = y * (r + 1) + x;
                #[trigger] plane_index(r, 6 * (x * r + y) + j) == if j == 0 {
                    k0
                } else if j == 1 {
                    k0 + r + 1
                } else if j == 2 {
                    k0 + 1
                } else if j == 3 {
                    k0 + r + 1
                } else if j == 4 {
                    k0 + r + 2
                } else {
                    k0 + 1
                }
            },
{
    lemma_fundamental_div_mod_converse(x * r + y, r, x, y);
    assert forall|j: int| 0 <= j < 6 implies {
        let k0 = y * (r + 1) + x;
        #[trigger] plane_index(r, 6 * (x * r + y) + j) == if j == 0 {
            k0
        } else if j == 1 {
            k0 + r + 1
        } else if j == 2 {
            k0 + 1
        } else if j == 3 {
            k0 + r + 1
        } else if j == 4 {
            k0 + r + 2
        } else {
            k0 + 1
        }
    } by {
        lemma_fundamental_div_mod_converse(6 * (x * r + y) + j, 6, x * r + y, j);
    }
}

/// The cube's index list is well formed: every index names one of its 24
/// vertices and a vertex of the face that the triangle belongs to; the two
/// triangles of each face share that face's diagonal (corners 0 and 2); and
/// both wind counter-clockwise seen from outside, along the face's normal.
pub proof fn lemma_cube_topology()
    ensures
        forall|i: int| 0 <= i < 36 ==> 0 <= #[trigger] cube_index(i) < 24,
        forall|i: int| 0 <= i < 36 ==> #[trigger] cube_index(i) / 4 == i / 6,
        forall|f: int|
            0 <= f < 6 ==> cube_index(#[trigger] (6 * f)) == cube_index(6 * f + 5)
                && cube_index(6 * f + 2) == cube_index(6 * f + 3),
        forall|f: int|
            0 <= f < 6 ==> winds_towards(
                cube_corner(cube_index(#[trigger] (6 * f))),
                cube_corner(cube_index(6 * f + 1)),
                cube_corner(cube_index(6 * f + 2)),
                cube_normal(f),
            ) && winds_towards(
                cube_corner(cube_index(6 * f + 3)),
                cube_corner(cube_index(6 * f + 4)),
                cube_corner(cube_index(6 * f + 5)),
                cube_normal(f),
            ),
{
    assert forall|i: int| 0 <= i < 36 implies 0 <= #[trigger] cube_index(i) < 24
        && cube_index(i) / 4 == i / 6 by {
        lemma_fundamental_div_mod_converse(cube_index(i), 4, i / 6, quad_corner(i % 6));
    }
    assert forall|f: int| 0 <= f < 6 implies cube_index(#[trigger] (6 * f)) == cube_index(6 * f + 5)
        && cube_index(6 * f + 2) == cube_index(6 * f + 3) && winds_towards(
            cube_corner(cube_index(6 * f)),
            cube_corner(cube_index(6 * f + 1)),
            cube_corner(cube_index(6 * f + 2)),
            cube_normal(f),
        ) && winds_towards(
            cube_corner(cube_index(6 * f + 3)),
            cube_corner(cube_index(6 * f + 4)),
            cube_corner(cube_index(6 * f + 5)),
            cube_normal(f),
        ) by {
        lemma_cube_face(f);
    }
}

/// Face `f` of the cube as its six indices pick it.
proof fn lemma_cube_face(f: int)
    requires
        0 <= f < 6,
    ensures
        cube_index(6 * f) == 4 * f,
        cube_index(6 * f + 1) == 4 * f + 1,
        cube_index(6 * f + 2) == 4 * f + 2,
        cube_index(6 * f + 3) == 4 * f + 2,
        cube_index(6 * f + 4) == 4 * f + 3,
        cube_index(6 * f + 5) == 4 * f,
        winds_towards(cube_corner(4 * f), cube_corner(4 * f + 1), cube_corner(4 * f + 2), cube_normal(f)),
        winds_towards(cube_corner(4 * f + 2), cube_corner(4 * f + 3), cube_corner(4 * f), cube_normal(f)),
{
    assert forall|j: int| 0 <= j < 6 implies #[trigger] cube_index(6 * f + j) == 4 * f + quad_corner(j) by {
        lemma_fundamental_div_mod_converse(6 * f + j, 6, f, j);
    }
    assert(cube_index(6 * f + 0) == 4 * f + quad_corner(0));
    assert(cube_index(6 * f + 1) == 4 * f + quad_corner(1));
    assert(cube_index(6 * f + 2) == 4 * f + quad_corner(2));
    assert(cube_index(6 * f + 3) == 4 * f + quad_corner(3));
    assert(cube_index(6 * f + 4) == 4 * f + quad_corner(4));
    assert(cube_index(6 * f + 5) == 4 * f + quad_corner(5));
    if f == 0 {
        assert(cube_corner(0) == (-1int, -1int, 1int));
        assert(cube_corner(1) == (1int, -1int, 1int));
        assert(cube_corner(2) == (1int, 1int, 1int));
        assert(cube_corner(3) == (-1int, 1int, 1int));
        assert(cube_normal(0) == (0int, 0int, 1int));
        assert(winds_towards((-1int, -1int, 1int), (1int, -1int, 1int), (1int, 1int, 1int), (0int, 0int, 1int))) by (nonlinear_arith);
        assert(winds_towards((1int, 1int, 1int), (-1int, 1int, 1int), (-1int, -1int, 1int), (0int, 0int, 1int))) by (nonlinear_arith);
    } else if f == 1 {
        assert(cube_corner(4) == (-1int, 1int, -1int));
        assert(cube_corner(5) == (1int, 1int, -1int));
        assert(cube_corner(6) == (1int, -1int, -1int));
        assert(cube_corner(7) == (-1int, -1int, -1int));
        assert(cube_normal(1) == (0int, 0int, -1int));
        assert(winds_towards((-1int, 1int, -1int), (1int, 1int, -1int), (1int, -1int, -1int), (0int, 0int, -1int))) by (nonlinear_arith);
        assert(winds_towards((1int, -1int, -1int), (-1int, -1int, -1int), (-1int, 1int, -1int), (0int, 0int, -1int))) by (nonlinear_arith);
    } else if f == 2 {
        assert(cube_corner(8) == (1int, -1int, -1int));
        assert(cube_corner(9) == (1int, 1int, -1int));
        assert(cube_corner(10) == (1int, 1int, 1int));
        assert(cube_corner(11) == (1int, -1int, 1int));
        assert(cube_normal(2) == (1int, 0int, 0int));
        assert(winds_towards((1int, -1int, -1int), (1int, 1int, -1int), (1int, 1int, 1int), (1int, 0int, 0int))) by (nonlinear_arith);
        assert(winds_towards((1int, 1int, 1int), (1int, -1int, 1int), (1int, -1int, -1int), (1int, 0int, 0int))) by (nonlinear_arith);
    } else if f == 3 {
        assert(cube_corner(12) == (-1int, -1int, 1int));
        assert(cube_corner(13) == (-1int, 1int, 1int));
        assert(cube_corner(14) == (-1int, 1int, -1int));
        assert(cube_corner(15) == (-1int, -1int, -1int));
        assert(cube_normal(3) == (-1int, 0int, 0int));
        assert(winds_towards((-1int, -1int, 1int), (-1int, 1int, 1int), (-1int, 1int, -1int), (-1int, 0int, 0int))) by (nonlinear_arith);
        assert(winds_towards((-1int, 1int, -1int), (-1int, -1int, -1int), (-1int, -1int, 1int), (-1int, 0int, 0int))) by (nonlinear_arith);
    } else if f == 4 {
        assert(cube_corner(16) == (1int, 1int, -1int));
        assert(cube_corner(17) == (-1int, 1int, -1int));
        assert(cube_corner(18) == (-1int, 1int, 1int));
        assert(cube_corner(19) == (1int, 1int, 1int));
        assert(cube_normal(4) == (0int, 1int, 0int));
        assert(winds_towards((1int, 1int, -1int), (-1int, 1int, -1int), (-1int, 1int, 1int), (0int, 1int, 0int))) by (nonlinear_arith);
        assert(winds_towards((-1int, 1int, 1int), (1int, 1int, 1int), (1int, 1int, -1int), (0int, 1int, 0int))) by (nonlinear_arith);
    } else {
        assert(cube_corner(20) == (1int, -1int, 1int));
        assert(cube_corner(21) == (-1int, -1int, 1int));
        assert(cube_corner(22) == (-1int, -1int, -1int));
        assert(cube_corner(23) == (1int, -1int, -1int));
        assert(cube_normal(5) == (0int, -1int, 0int));
        assert(winds_towards((1int, -1int, 1int), (-1int, -1int, 1int), (-1int, -1int, -1int), (0int, -1int, 0int))) by (nonlinear_arith);
        assert(winds_towards((-1int, -1int, -1int), (1int, -1int, -1int), (1int, -1int, 1int), (0int, -1int, 0int))) by (nonlinear_arith);
    }
}

/// Every index of a plane of resolution `r` names one of its `(r + 1)²`
/// vertices.
pub proof fn lemma_plane_indices_in_range(r: int)
    requires
        0 <= r <= 65535,
    ensures
        forall|i: int|
            0 <= i < 6 * r * r ==> 0 <= #[trigger] plane_index(r, i) < (r + 1) * (r + 1),
{
    assert forall|i: int| 0 <= i < 6 * r * r implies 0 <= #[trigger] plane_index(r, i) < (r + 1) * (
    r + 1) by {
        let c = i / 6;
        assert(6 * r * r == 6 * (r * r)) by (nonlinear_arith);
        assert(r > 0) by (nonlinear_arith)
            requires 0 <= i < 6 * (r * r), r >= 0;
        assert(c < r * r);
        let x = c / r;
        let y = c % r;
        lemma_fundamental_div_mod(c, r);
        lemma_mod_pos_bound(c, r);
        assert(c == x * r + y) by (nonlinear_arith)
            requires c == r * (c / r) + c % r, x == c / r, y == c % r;
        assert(x < r) by (nonlinear_arith)
            requires c == x * r + y, 0 <= y, c < r * r, r > 0;
        assert(x >= 0) by (nonlinear_arith)
            requires c == x * r + y, 0 <= y < r, c >= 0, r > 0;
        lemma_plane_cell_fits(r, x, y);
        assert(y * (r + 1) + x >= 0) by (nonlinear_arith)
            requires y >= 0, x >= 0, r >= 0;
    }
}

/// Both triangles of every cell of a plane wind counter-clockwise seen from
/// `+z`, the side that the plane's normal faces.
pub proof fn lemma_plane_faces_up(r: int)
    requires
        0 <= r <= 65535,
    ensures
        forall|c: int|
            0 <= c < r * r ==> winds_towards(
                plane_point(r, plane_index(r, #[trigger] (6 * c))),
                plane_point(r, plane_index(r, 6 * c + 1)),
                plane_point(r, plane_index(r, 6 * c + 2)),
                (0, 0, 1),
            ) && winds_towards(
                plane_point(r, plane_index(r, 6 * c + 3)),
                plane_point(r, plane_index(r, 6 * c + 4)),
                plane_point(r, plane_index(r, 6 * c + 5)),
                (0, 0, 1),
            ),
{
    assert forall|c: int| 0 <= c < r * r implies winds_towards(
        plane_point(r, plane_index(r, #[trigger] (6 * c))),
        plane_point(r, plane_index(r, 6 * c + 1)),
        plane_point(r, plane_index(r, 6 * c + 2)),
        (0, 0, 1),
    ) && winds_towards(
        plane_point(r, plane_index(r, 6 * c + 3)),
        plane_point(r, plane_index(r, 6 * c + 4)),
        plane_point(r, plane_index(r, 6 * c + 5)),
        (0, 0, 1),
    ) by {
        assert(r > 0) by (nonlinear_arith)
            requires 0 <= c < r * r, r >= 0;
        let x = c / r;
        let y = c % r;
        lemma_fundamental_div_mod(c, r);
        lemma_mod_pos_bound(c, r);
        assert(c == x * r + y) by (nonlinear_arith)
            requires c == r * (c / r) + c % r, x == c / r, y == c % r;
        assert(x < r && x >= 0) by (nonlinear_arith)
            requires c == x * r + y, 0 <= y < r, 0 <= c < r * r, r > 0;
        lemma_plane_cell_indices(r, x, y);
        assert(plane_index(r, 6 * (x * r + y) + 0) == plane_index(r, 6 * c));
        let k0 = y * (r + 1) + x;
        assert(k0 + r + 1 == (y + 1) * (r + 1) + x) by (nonlinear_arith)
            requires k0 == y * (r + 1) + x;
        assert(k0 + r + 2 == (y + 1) * (r + 1) + x + 1) by (nonlinear_arith)
            requires k0 == y * (r + 1) + x;
        lemma_fundamental_div_mod_converse(k0, r + 1, y, x);
        lemma_fundamental_div_mod_converse(k0 + 1, r + 1, y, x + 1);
        lemma_fundamental_div_mod_converse(k0 + r + 1, r + 1, y + 1, x);
        lemma_fundamental_div_mod_converse(k0 + r + 2, r + 1, y + 1, x + 1);
        assert(plane_point(r, k0) == (y, x, 0int));
        assert(plane_point(r, k0 + 1) == (y, x + 1, 0int));
        assert(plane_point(r, k0 + r + 1) == (y + 1, x, 0int));
        assert(plane_point(r, k0 + r + 2) == (y + 1, x + 1, 0int));
        assert(winds_towards((y, x, 0int), (y + 1, x, 0int), (y, x + 1, 0int), (0, 0, 1)))
            by (nonlinear_arith);
        assert(winds_towards((y + 1, x, 0int), (y + 1, x + 1, 0int), (y, x + 1, 0int), (0, 0, 1)))
            by (nonlinear_arith);
    }
}

fn cube_vertex_at(k: usize) -> (v: Vertex)
    requires
        k < 24,
    ensures
        cube_vertex(v, k as int),
{
    let pos: [i32; 4] = if k == 0 { [-1, -1, 1, 1] }
    else if k == 1 { [1, -1, 1, 1] }
    else if k == 2 { [1, 1, 1, 1] }
    else if k == 3 { [-1, 1, 1, 1] }
    else if k == 4 { [-1, 1, -1, 1] }
    else if k == 5 { [1, 1, -1, 1] }
    else if k == 6 { [1, -1, -1, 1] }
    else if k == 7 { [-1, -1, -1, 1] }
    else if k == 8 { [1, -1, -1, 1] }
    else if k == 9 { [1, 1, -1, 1] }
    else if k == 10 { [1, 1, 1, 1] }
    else if k == 11 { [1, -1, 1, 1] }
    else if k == 12 { [-1, -1, 1, 1] }
    else if k == 13 { [-1, 1, 1, 1] }
    else if k == 14 { [-1, 1, -1, 1] }
    else if k == 15 { [-1, -1, -1, 1] }
    else if k == 16 { [1, 1, -1, 1] }
    else if k == 17 { [-1, 1, -1, 1] }
    else if k == 18 { [-1, 1, 1, 1] }
    else if k == 19 { [1, 1, 1, 1] }
    else if k == 20 { [1, -1, 1, 1] }
    else if k == 21 { [-1, -1, 1, 1] }
    else if k == 22 { [-1, -1, -1, 1] }
    else { [1, -1, -1, 1] };
    let f = k / 4;
    let normal: [i32; 4] = if f == 0 { [0, 0, 1, 1] }
    else if f == 1 { [0, 0, -1, 1] }
    else if f == 2 { [1, 0, 0, 1] }
    else if f == 3 { [-1, 0, 0, 1] }
    else if f == 4 { [0, 1, 0, 1] }
    else { [0, -1, 0, 1] };
    let c = k % 4;
    let tex_coords: [i32; 2] = if c == 0 { [0, 0] }
    else if c == 1 { [1, 0] }
    else if c == 2 { [0, 1] }
    else { [1, 1] };
    let color: [i32; 4] = [1, 1, 1, 1];
    proof {
        let p = cube_corner(k as int);
        let n = cube_normal(k as int / 4);
        assert(ints(pos@) =~= seq![p.0, p.1, p.2, 1]);
        assert(ints(normal@) =~= seq![n.0, n.1, n.2, 1]);
        assert(ints(color@) =~= white());
        assert(ints(tex_coords@) =~= quad_tex(k as int % 4));
    }
    Vertex { pos, color, normal, tex_coords, denom: 1 }
}

fn quad_corner_at(j: u32) -> (c: u32)
    requires
        j < 6,
    ensures
        c == quad_corner(j as int),
{
    if j == 0 { 0 }
    else if j == 1 { 1 }
    else if j == 2 { 2 }
    else if j == 3 { 2 }
    else if j == 4 { 3 }
    else { 0 }
}

} // verus!
