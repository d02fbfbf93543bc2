//! The wireframe mesh drawn over the lattice, and the size of the depth
//! target.
use vstd::prelude::*;
use crate::sim::grid::{lemma_mixed_radix, lemma_mixed_radix_bound, GridConfig};

verus! {

/// Distance, in voxels, between neighbouring points of the wireframe.
pub const LATTICE_STEP: u32 = 4;

/// How many multiples of the step lie below `d`: the points along one axis.
pub open spec fn lattice_len(d: int) -> int {
    (d + 3) / 4
}

/// Points of the wireframe along x, y and z.
pub open spec fn mesh_nx(c: GridConfig) -> int {
    lattice_len(c.dim_x as int)
}

pub open spec fn mesh_ny(c: GridConfig) -> int {
    lattice_len(c.dim_y as int)
}

pub open spec fn mesh_nz(c: GridConfig) -> int {
    lattice_len(c.dim_z as int)
}

/// The number of points of the wireframe.
pub open spec fn mesh_vertex_count(c: GridConfig) -> int {
    mesh_nx(c) * mesh_ny(c) * mesh_nz(c)
}

/// The position in the vertex list of the point with lattice coordinates
/// (kx, ky, kz): x varies fastest, z slowest.
pub open spec fn mesh_vertex_index(c: GridConfig, kx: int, ky: int, kz: int) -> int {
    kx + mesh_nx(c) * (ky + mesh_ny(c) * kz)
}

/// Lattice coordinates of vertex `i` along x, y and z.
pub open spec fn mesh_kx(c: GridConfig, i: int) -> int {
    i % mesh_nx(c)
}

pub open spec fn mesh_ky(c: GridConfig, i: int) -> int {
    (i / mesh_nx(c)) % mesh_ny(c)
}

pub open spec fn mesh_kz(c: GridConfig, i: int) -> int {
    i / (mesh_nx(c) * mesh_ny(c))
}

/// The grid coordinates of vertex `i`: its lattice coordinates times the step.
pub open spec fn mesh_point(c: GridConfig, i: int) -> [u32; 3] {
    [(4 * mesh_kx(c, i)) as u32, (4 * mesh_ky(c, i)) as u32, (4 * mesh_kz(c, i)) as u32]
}

/// The line segments from vertex `i` to its next neighbour along x, y and z,
/// each as a pair of vertex indices, for each neighbour that lies inside the
/// grid.
pub open spec fn vertex_edges(c: GridConfig, i: int) -> Seq<u32> {
    let kx = mesh_kx(c, i);
    let ky = mesh_ky(c, i);
    let kz = mesh_kz(c, i);
    (if 4 * kx + 4 < c.dim_x {
        seq![i as u32, mesh_vertex_index(c, kx + 1, ky, kz) as u32]
    } else {
        Seq::empty()
    }) + (if 4 * ky + 4 < c.dim_y {
        seq![i as u32, mesh_vertex_index(c, kx, ky + 1, kz) as u32]
    } else {
        Seq::empty()
    }) + (if 4 * kz + 4 < c.dim_z {
        seq![i as u32, mesh_vertex_index(c, kx, ky, kz + 1) as u32]
    } else {
        Seq::empty()
    })
}

/// The index list of the first `n` vertices' segments, in vertex order.
pub open spec fn mesh_edges(c: GridConfig, n: nat) -> Seq<u32>
    decreases n,
{
    if n == 0 {
        Seq::empty()
    } else {
        mesh_edges(c, (n - 1) as nat) + vertex_edges(c, n - 1)
    }
}

/// The grid is small enough for its wireframe: a step past the last point of
/// an axis still fits in 32 bits, and every vertex index does too.
pub open spec fn mesh_fits(c: GridConfig) -> bool {
    &&& c.dim_x <= u32::MAX - 3
    &&& c.dim_y <= u32::MAX - 3
    &&& c.dim_z <= u32::MAX - 3
    &&& mesh_vertex_count(c) <= u32::MAX
}

/// The wireframe drawn over the lattice: one vertex per lattice point (every
/// fourth voxel along each axis) and a line list joining each point to its
/// next neighbours.
pub struct LatticeMesh {
    pub grid_coords: Vec<[u32; 3]>,
    pub indices: Vec<u32>,
}

impl LatticeMesh {
    /// The wireframe of a grid: its points in x-fastest order, and for each
    /// point in that order the segments to its next neighbours along x, y and
    /// z that lie inside the grid.
    pub fn build(config: &GridConfig) -> (r: LatticeMesh)
        requires
            mesh_fits(*config),
        ensures
            r.grid_coords@.len() == mesh_vertex_count(*config),
            forall|i: int|
                0 <= i < r.grid_coords@.len() ==> #[trigger] r.grid_coords@[i] == mesh_point(
                    *config,
                    i,
                ),
            r.indices@ == mesh_edges(*config, mesh_vertex_count(*config) as nat),
            joins_all_neighbours(*config, r.indices@),
            all_segments(*config, r.indices@),
    {
        proof {
            lemma_mesh_joins_all_neighbours(*config);
            lemma_mesh_segments(*config, mesh_vertex_count(*config) as nat);
        }
        let ghost c = *config;
        let dim_x = config.dim_x as u64;
        let dim_y = config.dim_y as u64;
        let dim_z = config.dim_z as u64;
        let nx: u64 = (dim_x + 3) / 4;
        let ny: u64 = (dim_y + 3) / 4;
        let nz: u64 = (dim_z + 3) / 4;
        assert(nx == mesh_nx(c) && ny == mesh_ny(c) && nz == mesh_nz(c));
        assert(nx * ny <= 0x1000_0000_0000_0000) by (nonlinear_arith)
            requires
                nx <= 0x4000_0000,
                ny <= 0x4000_0000,
        ;
        let plane: u64 = nx * ny;
        assert(plane * nz <= u32::MAX) by {
            assert(plane * nz == mesh_vertex_count(c));
        }
        let count: u64 = plane * nz;
        let mut grid_coords: Vec<[u32; 3]> = Vec::new();
        let mut indices: Vec<u32> = Vec::new();
        let mut i: u64 = 0;
        let mut kx: u64 = 0;
        let mut ky: u64 = 0;
        let mut kz: u64 = 0;
        if count == 0 {
            assert(indices@ =~= mesh_edges(c, 0));
            return LatticeMesh { grid_coords, indices };
        }
        assert(nx > 0 && ny > 0 && nz > 0) by (nonlinear_arith)
            requires
                count == nx * ny * nz,
                count != 0,
        ;
        assert(0 == 0 + nx * (0 + ny * 0)) by (nonlinear_arith);
        while i < count
            invariant
                c == *config,
                mesh_fits(c),
                nx == mesh_nx(c),
                ny == mesh_ny(c),
                nz == mesh_nz(c),
                nx > 0,
                ny > 0,
                nz > 0,
                dim_x == c.dim_x,
                dim_y == c.dim_y,
                dim_z == c.dim_z,
                plane == nx * ny,
                count == nx * ny * nz,
                count <= u32::MAX,
                i <= count,
                kx < nx,
                ky < ny,
                kz <= nz,
                i == kx + nx * (ky + ny * kz),
                kz == nz ==> i == count,
                grid_coords@.len() == i,
                forall|j: int| 0 <= j < i ==> #[trigger] grid_coords@[j] == mesh_point(c, j),
                indices@ == mesh_edges(c, i as nat),
            decreases count - i,
        {
            assert(kz < nz);
            proof {
                lemma_mixed_radix(kx as int, ky as int, kz as int, nx as int, ny as int);
            }
            let ghost before = indices@;
            grid_coords.push([(4 * kx) as u32, (4 * ky) as u32, (4 * kz) as u32]);
            if 4 * kx + 4 < dim_x {
                proof {
                    lemma_mixed_radix_bound(
                        kx + 1,
                        ky as int,
                        kz as int,
                        nx as int,
                        ny as int,
                        nz as int,
                    );
                }
                indices.push(i as u32);
                indices.push((i + 1) as u32);
            }
            if 4 * ky + 4 < dim_y {
                proof {
                    lemma_mixed_radix_bound(
                        kx as int,
                        ky + 1,
                        kz as int,
                        nx as int,
                        ny as int,
                        nz as int,
                    );
                    assert(kx + nx * (ky + 1 + ny * kz) == i + nx) by (nonlinear_arith)
                        requires
                            i == kx + nx * (ky + ny * kz),
                    ;
                }
                indices.push(i as u32);
                indices.push((i + nx) as u32);
            }
            if 4 * kz + 4 < dim_z {
                proof {
                    lemma_mixed_radix_bound(
                        kx as int,
                        ky as int,
                        kz + 1,
                        nx as int,
                        ny as int,
                        nz as int,
                    );
                    assert(kx + nx * (ky + ny * (kz + 1)) == i + plane) by (nonlinear_arith)
                        requires
                            i == kx + nx * (ky + ny * kz),
                            plane == nx * ny,
                    ;
                }
                indices.push(i as u32);
                indices.push((i + plane) as u32);
            }
            proof {
                assert(indices@ =~= before + vertex_edges(c, i as int));
                assert(mesh_edges(c, (i + 1) as nat) == mesh_edges(c, i as nat) + vertex_edges(
                    c,
                    i as int,
                ));
            }
            i = i + 1;
            kx = kx + 1;
            if kx == nx {
                kx = 0;
                ky = ky + 1;
                if ky == ny {
                    ky = 0;
                    kz = kz + 1;
                    assert(i == 0 + nx * (0 + ny * kz) && i == nx * ny * kz) by (nonlinear_arith)
                        requires
                            i == nx + nx * (ny - 1 + ny * (kz - 1)),
                    ;
                } else {
                    assert(i == 0 + nx * (ky + ny * kz)) by (nonlinear_arith)
                        requires
                            i == nx + nx * (ky - 1 + ny * kz),
                    ;
                }
            }
        }
        LatticeMesh { grid_coords, indices }
    }
}

/// The size of the depth target for a surface: its width and height, each at
/// least one.
pub fn depth_extent(width: u32, height: u32) -> (r: (u32, u32))
    ensures
        r.0 == (if width >= 1 { width } else { 1 }),
        r.1 == (if height >= 1 { height } else { 1 }),
{
    let w = if width >= 1 { width } else { 1 };
    let h = if height >= 1 { height } else { 1 };
    (w, h)
}

/// Vertices `a` and `b` are points of the wireframe, and `b` lies one step
/// further along exactly one axis than `a`.
pub open spec fn is_lattice_segment(c: GridConfig, a: int, b: int) -> bool {
    let p = mesh_point(c, a);
    let q = mesh_point(c, b);
    &&& 0 <= a < mesh_vertex_count(c)
    &&& 0 <= b < mesh_vertex_count(c)
    &&& {
        ||| (q[0] == p[0] + 4 && q[1] == p[1] && q[2] == p[2])
        ||| (q[0] == p[0] && q[1] == p[1] + 4 && q[2] == p[2])
        ||| (q[0] == p[0] && q[1] == p[1] && q[2] == p[2] + 4)
    }
}

/// Every entry pair of an index list, read two at a time, is a segment.
pub open spec fn all_segments(c: GridConfig, e: Seq<u32>) -> bool {
    &&& e.len() % 2 == 0
    &&& forall|k: int|
        0 <= k < e.len() / 2 ==> #[trigger] is_lattice_segment(
            c,
            e[2 * k] as int,
            e[2 * k + 1] as int,
        )
}

proof fn lemma_vertex_edges_segments(c: GridConfig, i: int)
    requires
        mesh_fits(c),
        0 <= i < mesh_vertex_count(c),
    ensures
        all_segments(c, vertex_edges(c, i)),
{
    let nx = mesh_nx(c);
    let ny = mesh_ny(c);
    let nz = mesh_nz(c);
    let kx = mesh_kx(c, i);
    let ky = mesh_ky(c, i);
    let kz = mesh_kz(c, i);
    assert(nx > 0 && ny > 0 && nz > 0) by (nonlinear_arith)
        requires
            0 <= i < nx * ny * nz,
            nx >= 0,
            ny >= 0,
            nz >= 0,
    ;
    vstd::arithmetic::div_mod::lemma_fundamental_div_mod(i, nx);
    vstd::arithmetic::div_mod::lemma_fundamental_div_mod(i / nx, ny);
    vstd::arithmetic::div_mod::lemma_div_denominator(i, nx, ny);
    assert(i / nx >= 0 && (i / nx) / ny >= 0) by (nonlinear_arith)
        requires
            i >= 0,
            nx > 0,
            ny > 0,
    ;
    assert(i == kx + nx * (ky + ny * kz)) by (nonlinear_arith)
        requires
            i == nx * (i / nx) + i % nx,
            i / nx == ny * ((i / nx) / ny) + (i / nx) % ny,
            kx == i % nx,
            ky == (i / nx) % ny,
            kz == (i / nx) / ny,
    ;
    assert(0 <= kx < nx && 0 <= ky < ny);
    assert(kz < nz) by {
        if kz >= nz {
            assert(kx + nx * (ky + ny * kz) >= nx * ny * nz) by (nonlinear_arith)
                requires
                    kx >= 0,
                    ky >= 0,
                    kz >= nz,
                    nx > 0,
                    ny > 0,
            ;
        }
    }
    let e = vertex_edges(c, i);
    let ex = if 4 * kx + 4 < c.dim_x {
        seq![i as u32, mesh_vertex_index(c, kx + 1, ky, kz) as u32]
    } else {
        Seq::<u32>::empty()
    };
    let ey = if 4 * ky + 4 < c.dim_y {
        seq![i as u32, mesh_vertex_index(c, kx, ky + 1, kz) as u32]
    } else {
        Seq::<u32>::empty()
    };
    let ez = if 4 * kz + 4 < c.dim_z {
        seq![i as u32, mesh_vertex_index(c, kx, ky, kz + 1) as u32]
    } else {
        Seq::<u32>::empty()
    };
    assert(e == ex + ey + ez);
    if 4 * kx + 4 < c.dim_x {
        lemma_mixed_radix(kx + 1, ky, kz, nx, ny);
        lemma_mixed_radix_bound(kx + 1, ky, kz, nx, ny, nz);
        assert(is_lattice_segment(c, i, mesh_vertex_index(c, kx + 1, ky, kz)));
    }
    if 4 * ky + 4 < c.dim_y {
        lemma_mixed_radix(kx, ky + 1, kz, nx, ny);
        lemma_mixed_radix_bound(kx, ky + 1, kz, nx, ny, nz);
        assert(is_lattice_segment(c, i, mesh_vertex_index(c, kx, ky + 1, kz)));
    }
    if 4 * kz + 4 < c.dim_z {
        lemma_mixed_radix(kx, ky, kz + 1, nx, ny);
        lemma_mixed_radix_bound(kx, ky, kz + 1, nx, ny, nz);
        assert(is_lattice_segment(c, i, mesh_vertex_index(c, kx, ky, kz + 1)));
    }
    lemma_segments_concat(c, ex, ey);
    lemma_segments_concat(c, ex + ey, ez);
}

proof fn lemma_segments_concat(c: GridConfig, e1: Seq<u32>, e2: Seq<u32>)
    requires
        all_segments(c, e1),
        all_segments(c, e2),
    ensures
        all_segments(c, e1 + e2),
{
    let e = e1 + e2;
    assert forall|k: int| 0 <= k < e.len() / 2 implies #[trigger] is_lattice_segment(
        c,
        e[2 * k] as int,
        e[2 * k + 1] as int,
    ) by {
        if k < e1.len() / 2 {
            assert(e[2 * k] == e1[2 * k] && e[2 * k + 1] == e1[2 * k + 1]);
        } else {
            let k2 = k - e1.len() / 2;
            assert(e[2 * k] == e2[2 * k2] && e[2 * k + 1] == e2[2 * k2 + 1]);
            assert(is_lattice_segment(c, e2[2 * k2] as int, e2[2 * k2 + 1] as int));
        }
    }
}

/// The index list of the wireframe is a line list: read two entries at a
/// time, each pair names two points of the wireframe one step apart along one
/// axis.
pub proof fn lemma_mesh_segments(c: GridConfig, n: nat)
    requires
        mesh_fits(c),
        n <= mesh_vertex_count(c),
    ensures
        all_segments(c, mesh_edges(c, n)),
    decreases n,
{
    if n > 0 {
        lemma_mesh_segments(c, (n - 1) as nat);
        lemma_vertex_edges_segments(c, n - 1);
        lemma_segments_concat(c, mesh_edges(c, (n - 1) as nat), vertex_edges(c, n - 1));
    }
}

/// Entries `2k` and `2k + 1` of an index list: its `k`-th segment.
pub open spec fn pair_at(e: Seq<u32>, k: int) -> (u32, u32) {
    (e[2 * k], e[2 * k + 1])
}

/// The index list holds the segment from vertex `a` to vertex `b` as one of
/// its pairs.
pub open spec fn lists_segment(e: Seq<u32>, a: int, b: int) -> bool {
    exists|k: int| 0 <= k < e.len() / 2 && #[trigger] pair_at(e, k) == (a as u32, b as u32)
}

/// Every point of the wireframe is joined to its next neighbour along each
/// axis whose neighbour still lies inside the grid.
pub open spec fn joins_all_neighbours(c: GridConfig, e: Seq<u32>) -> bool {
    forall|kx: int, ky: int, kz: int|
        0 <= kx < mesh_nx(c) && 0 <= ky < mesh_ny(c) && 0 <= kz < mesh_nz(c) ==> {
            &&& 4 * kx + 4 < c.dim_x ==> lists_segment(
                e,
                #[trigger] mesh_vertex_index(c, kx, ky, kz),
                mesh_vertex_index(c, kx + 1, ky, kz),
            )
            &&& 4 * ky + 4 < c.dim_y ==> lists_segment(
                e,
                mesh_vertex_index(c, kx, ky, kz),
                mesh_vertex_index(c, kx, ky + 1, kz),
            )
            &&& 4 * kz + 4 < c.dim_z ==> lists_segment(
                e,
                mesh_vertex_index(c, kx, ky, kz),
                mesh_vertex_index(c, kx, ky, kz + 1),
            )
        }
}

/// The whole index list of the wireframe joins every point to each of its
/// next neighbours inside the grid.
pub proof fn lemma_mesh_joins_all_neighbours(c: GridConfig)
    requires
        mesh_fits(c),
    ensures
        joins_all_neighbours(c, mesh_edges(c, mesh_vertex_count(c) as nat)),
{
    assert forall|kx: int, ky: int, kz: int|
        0 <= kx < mesh_nx(c) && 0 <= ky < mesh_ny(c) && 0 <= kz < mesh_nz(c) implies {
        let e = mesh_edges(c, mesh_vertex_count(c) as nat);
        &&& 4 * kx + 4 < c.dim_x ==> lists_segment(
            e,
            #[trigger] mesh_vertex_index(c, kx, ky, kz),
            mesh_vertex_index(c, kx + 1, ky, kz),
        )
        &&& 4 * ky + 4 < c.dim_y ==> lists_segment(
            e,
            mesh_vertex_index(c, kx, ky, kz),
            mesh_vertex_index(c, kx, ky + 1, kz),
        )
        &&& 4 * kz + 4 < c.dim_z ==> lists_segment(
            e,
            mesh_vertex_index(c, kx, ky, kz),
            mesh_vertex_index(c, kx, ky, kz + 1),
        )
    } by {
        lemma_mesh_complete(c, kx, ky, kz);
    }
}

proof fn lemma_mesh_edges_prefix(c: GridConfig, m: nat, n: nat)
    requires
        m <= n,
    ensures
        mesh_edges(c, m).len() <= mesh_edges(c, n).len(),
        forall|j: int|
            0 <= j < mesh_edges(c, m).len() ==> #[trigger] mesh_edges(c, n)[j] == mesh_edges(
                c,
                m,
            )[j],
    decreases n,
{
    if m < n {
        lemma_mesh_edges_prefix(c, m, (n - 1) as nat);
        assert(mesh_edges(c, n) == mesh_edges(c, (n - 1) as nat) + vertex_edges(c, n - 1));
    }
}

/// The wireframe is complete: every point is joined to its next neighbour
/// along x, along y and along z whenever that neighbour lies inside the grid,
/// that is whenever the point's coordinate plus the step is below the
/// dimension.
pub proof fn lemma_mesh_complete(c: GridConfig, kx: int, ky: int, kz: int)
    requires
        mesh_fits(c),
        0 <= kx < mesh_nx(c),
        0 <= ky < mesh_ny(c),
        0 <= kz < mesh_nz(c),
    ensures
        4 * kx + 4 < c.dim_x ==> lists_segment(
            mesh_edges(c, mesh_vertex_count(c) as nat),
            mesh_vertex_index(c, kx, ky, kz),
            mesh_vertex_index(c, kx + 1, ky, kz),
        ),
        4 * ky + 4 < c.dim_y ==> lists_segment(
            mesh_edges(c, mesh_vertex_count(c) as nat),
            mesh_vertex_index(c, kx, ky, kz),
            mesh_vertex_index(c, kx, ky + 1, kz),
        ),
        4 * kz + 4 < c.dim_z ==> lists_segment(
            mesh_edges(c, mesh_vertex_count(c) as nat),
            mesh_vertex_index(c, kx, ky, kz),
            mesh_vertex_index(c, kx, ky, kz + 1),
        ),
{
    let nx = mesh_nx(c);
    let ny = mesh_ny(c);
    let nz = mesh_nz(c);
    let n = mesh_vertex_count(c);
    let i = mesh_vertex_index(c, kx, ky, kz);
    lemma_mixed_radix(kx, ky, kz, nx, ny);
    lemma_mixed_radix_bound(kx, ky, kz, nx, ny, nz);
    assert(0 <= i < n);
    lemma_mesh_segments(c, i as nat);
    let pre = mesh_edges(c, i as nat);
    let ve = vertex_edges(c, i);
    let all = mesh_edges(c, n as nat);
    assert(mesh_edges(c, (i + 1) as nat) == pre + ve);
    lemma_mesh_edges_prefix(c, (i + 1) as nat, n as nat);
    let base: int = (pre.len() / 2) as int;
    assert(pre.len() == 2 * base);
    let ex = if 4 * kx + 4 < c.dim_x {
        seq![i as u32, mesh_vertex_index(c, kx + 1, ky, kz) as u32]
    } else {
        Seq::<u32>::empty()
    };
    let ey = if 4 * ky + 4 < c.dim_y {
        seq![i as u32, mesh_vertex_index(c, kx, ky + 1, kz) as u32]
    } else {
        Seq::<u32>::empty()
    };
    let ez = if 4 * kz + 4 < c.dim_z {
        seq![i as u32, mesh_vertex_index(c, kx, ky, kz + 1) as u32]
    } else {
        Seq::<u32>::empty()
    };
    assert(ve == ex + ey + ez);
    let whole = pre + ve;
    if 4 * kx + 4 < c.dim_x {
        let k: int = base;
        assert(whole[2 * k] == ex[0] && whole[2 * k + 1] == ex[1]);
        assert(all[2 * k] == whole[2 * k] && all[2 * k + 1] == whole[2 * k + 1]);
        assert(pair_at(all, k) == (i as u32, mesh_vertex_index(c, kx + 1, ky, kz) as u32));
    }
    if 4 * ky + 4 < c.dim_y {
        let k: int = base + ex.len() / 2;
        assert(whole[2 * k] == ey[0] && whole[2 * k + 1] == ey[1]);
        assert(all[2 * k] == whole[2 * k] && all[2 * k + 1] == whole[2 * k + 1]);
        assert(pair_at(all, k) == (i as u32, mesh_vertex_index(c, kx, ky + 1, kz) as u32));
    }
    if 4 * kz + 4 < c.dim_z {
        let k: int = base + ex.len() / 2 + ey.len() / 2;
        assert(whole[2 * k] == ez[0] && whole[2 * k + 1] == ez[1]);
        assert(all[2 * k] == whole[2 * k] && all[2 * k + 1] == whole[2 * k + 1]);
        assert(pair_at(all, k) == (i as u32, mesh_vertex_index(c, kx, ky, kz + 1) as u32));
    }
}

} // verus!
