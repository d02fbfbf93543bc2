//! The lattice's dimensions, the flat layout of its voxels, its starting
//! contents and the pair of GPU buffers that hold it.
use vstd::prelude::*;
use crate::gpu_layout::{holds_words, words_as_bytes};
use crate::sim::voxel::{
    voxel_of, GpuVoxel, IdState, BASELINE_PRESSURE, CEILING_PRESSURE, SINK_PRESSURE,
};

verus! {

/// Declares `wgpu::Buffer` to Verus as an opaque type, so that the grid can
/// hold its GPU buffers; nothing about a buffer's contents is claimed.
#[verifier::external_type_specification]
#[verifier::external_body]
pub struct ExGpuBuffer(wgpu::Buffer);

/// Declares `wgpu::BindGroup` to Verus as an opaque type, so that the grid can
/// hold its bind groups; nothing about a bind group is claimed.
#[verifier::external_type_specification]
#[verifier::external_body]
pub struct ExGpuBindGroup(wgpu::BindGroup);

/// The uniform block that the simulation shader reads: the grid's dimensions
/// and the two reference pressures, padded to 32 bytes.
#[derive(Debug, Clone, Copy)]
pub struct SimParams {
    pub grid_dim: [u32; 4],
    pub baseline_pressure: u32,
    pub ceiling_pressure: u32,
    pub padding: [u32; 2],
}

/// The dimensions of the lattice, in voxels.
pub struct GridConfig {
    pub dim_x: u32,
    pub dim_y: u32,
    pub dim_z: u32,
}

impl Default for GridConfig {
    fn default() -> (r: Self)
        ensures
            r.dim_x == 64 && r.dim_y == 64 && r.dim_z == 64,
    {
        Self { dim_x: 64, dim_y: 64, dim_z: 64 }
    }
}

/// The number of voxels in a grid.
pub open spec fn voxel_count(c: GridConfig) -> int {
    c.dim_x * c.dim_y * c.dim_z
}

/// The voxel count, and the product on the way to it, fit in 32 bits.
pub open spec fn voxel_count_fits(c: GridConfig) -> bool {
    &&& c.dim_x * c.dim_y <= u32::MAX
    &&& voxel_count(c) <= u32::MAX
}

/// The position of voxel (x, y, z) in the flat layout: x varies fastest, z
/// slowest.
pub open spec fn flat_index_of(c: GridConfig, x: int, y: int, z: int) -> int {
    x + y * c.dim_x + z * c.dim_x * c.dim_y
}

/// Every partial sum and product of the flat index of (x, y, z) fits in 32
/// bits.
pub open spec fn flat_index_fits(c: GridConfig, x: int, y: int, z: int) -> bool {
    &&& y * c.dim_x <= u32::MAX
    &&& z * c.dim_x <= u32::MAX
    &&& z * c.dim_x * c.dim_y <= u32::MAX
    &&& x + y * c.dim_x <= u32::MAX
    &&& flat_index_of(c, x, y, z) <= u32::MAX
}

impl GridConfig {
    /// The number of voxels in the grid.
    pub fn total_voxels(&self) -> (r: usize)
        requires
            voxel_count_fits(*self),
        ensures
            r as int == voxel_count(*self),
    {
        (self.dim_x * self.dim_y * self.dim_z) as usize
    }

    /// The position of voxel (x, y, z) in the flat layout.
    pub fn flat_index(&self, x: u32, y: u32, z: u32) -> (r: usize)
        requires
            flat_index_fits(*self, x as int, y as int, z as int),
        ensures
            r as int == flat_index_of(*self, x as int, y as int, z as int),
    {
        (x + y * self.dim_x + z * self.dim_x * self.dim_y) as usize
    }
}

/// Digits in a mixed radix: with 0 <= a < na and 0 <= b < nb, the number
/// a + na * (b + nb * c) has a, b and c as its digits.
pub(crate) proof fn lemma_mixed_radix(a: int, b: int, c: int, na: int, nb: int)
    requires
        0 <= a < na,
        0 <= b < nb,
        0 <= c,
    ensures
        (a + na * (b + nb * c)) % na == a,
        ((a + na * (b + nb * c)) / na) % nb == b,
        (a + na * (b + nb * c)) / (na * nb) == c,
        (a + na * (b + nb * c)) / na == b + nb * c,
{
    let i = a + na * (b + nb * c);
    assert(a + na * (b + nb * c) == (b + nb * c) * na + a) by (nonlinear_arith);
    vstd::arithmetic::div_mod::lemma_fundamental_div_mod_converse(i, na, b + nb * c, a);
    assert(b + nb * c == c * nb + b) by (nonlinear_arith);
    vstd::arithmetic::div_mod::lemma_fundamental_div_mod_converse(b + nb * c, nb, c, b);
    vstd::arithmetic::div_mod::lemma_div_denominator(i, na, nb);
}

/// A number with digits below na, nb and nc lies below na * nb * nc.
pub(crate) proof fn lemma_mixed_radix_bound(a: int, b: int, c: int, na: int, nb: int, nc: int)
    requires
        0 <= a < na,
        0 <= b < nb,
        0 <= c < nc,
    ensures
        0 <= a + na * (b + nb * c) < na * nb * nc,
        0 <= na * b <= na * (b + nb * c),
        0 <= na * nb * c <= na * (b + nb * c),
{
    assert(0 <= b + nb * c <= nb * nc - 1) by (nonlinear_arith)
        requires
            0 <= b < nb,
            0 <= c < nc,
    ;
    assert(0 <= na * (b + nb * c) <= na * (nb * nc - 1)) by (nonlinear_arith)
        requires
            0 <= b + nb * c <= nb * nc - 1,
            0 < na,
    ;
    assert(na * (nb * nc - 1) == na * nb * nc - na) by (nonlinear_arith);
    assert(0 <= na * b <= na * (b + nb * c)) by (nonlinear_arith)
        requires
            0 <= b,
            0 <= c,
            0 < nb,
            0 < na,
    ;
    assert(0 <= na * nb * c <= na * (b + nb * c)) by (nonlinear_arith)
        requires
            0 <= b,
            0 <= c,
            0 < nb,
            0 < na,
    ;
}

/// Inside the grid, the flat index of (x, y, z) is computed without overflow,
/// lies below the voxel count, and gives back x, y and z: the layout is a
/// one-to-one numbering of the voxels.
pub proof fn lemma_flat_index_decodes(c: GridConfig, x: int, y: int, z: int)
    requires
        voxel_count_fits(c),
        0 <= x < c.dim_x,
        0 <= y < c.dim_y,
        0 <= z < c.dim_z,
    ensures
        flat_index_fits(c, x, y, z),
        0 <= flat_index_of(c, x, y, z) < voxel_count(c),
        flat_index_of(c, x, y, z) % (c.dim_x as int) == x,
        (flat_index_of(c, x, y, z) / (c.dim_x as int)) % (c.dim_y as int) == y,
        flat_index_of(c, x, y, z) / (c.dim_x * c.dim_y) == z,
{
    let dx = c.dim_x as int;
    let dy = c.dim_y as int;
    let dz = c.dim_z as int;
    assert(x + y * dx + z * dx * dy == x + dx * (y + dy * z)) by (nonlinear_arith);
    assert(y * dx == dx * y && z * dx * dy == dx * dy * z) by (nonlinear_arith);
    lemma_mixed_radix(x, y, z, dx, dy);
    lemma_mixed_radix_bound(x, y, z, dx, dy, dz);
    assert(z * dx <= z * dx * dy) by (nonlinear_arith)
        requires
            0 <= z,
            0 < dx,
            1 <= dy,
    ;
}

/// Two voxels inside the grid with the same flat index are the same voxel.
pub proof fn lemma_flat_index_injective(
    c: GridConfig,
    x1: int,
    y1: int,
    z1: int,
    x2: int,
    y2: int,
    z2: int,
)
    requires
        voxel_count_fits(c),
        0 <= x1 < c.dim_x,
        0 <= y1 < c.dim_y,
        0 <= z1 < c.dim_z,
        0 <= x2 < c.dim_x,
        0 <= y2 < c.dim_y,
        0 <= z2 < c.dim_z,
        flat_index_of(c, x1, y1, z1) == flat_index_of(c, x2, y2, z2),
    ensures
        x1 == x2 && y1 == y2 && z1 == z2,
{
    lemma_flat_index_decodes(c, x1, y1, z1);
    lemma_flat_index_decodes(c, x2, y2, z2);
}

/// The uniform block for a grid: its dimensions (with a zero fourth entry) and
/// the baseline and ceiling pressures.
pub open spec fn sim_params_of(c: GridConfig) -> SimParams {
    SimParams {
        grid_dim: [c.dim_x, c.dim_y, c.dim_z, 0],
        baseline_pressure: BASELINE_PRESSURE,
        ceiling_pressure: CEILING_PRESSURE,
        padding: [0, 0],
    }
}

/// The eight words of the uniform block in field order.
pub open spec fn sim_param_words(p: SimParams) -> Seq<u32> {
    seq![
        p.grid_dim[0],
        p.grid_dim[1],
        p.grid_dim[2],
        p.grid_dim[3],
        p.baseline_pressure,
        p.ceiling_pressure,
        p.padding[0],
        p.padding[1],
    ]
}

impl SimParams {
    /// The uniform block that describes a grid to the simulation shader.
    pub fn for_grid(config: &GridConfig) -> (r: SimParams)
        ensures
            r == sim_params_of(*config),
    {
        SimParams {
            grid_dim: [config.dim_x, config.dim_y, config.dim_z, 0],
            baseline_pressure: BASELINE_PRESSURE,
            ceiling_pressure: CEILING_PRESSURE,
            padding: [0, 0],
        }
    }

    /// The eight words of the block in field order.
    pub fn to_words(&self) -> (r: Vec<u32>)
        ensures
            r@ == sim_param_words(*self),
    {
        let mut words: Vec<u32> = Vec::new();
        words.push(self.grid_dim[0]);
        words.push(self.grid_dim[1]);
        words.push(self.grid_dim[2]);
        words.push(self.grid_dim[3]);
        words.push(self.baseline_pressure);
        words.push(self.ceiling_pressure);
        words.push(self.padding[0]);
        words.push(self.padding[1]);
        assert(words@ =~= sim_param_words(*self));
        words
    }

    /// The 32 bytes of the block as a uniform buffer holds them, in the
    /// machine's byte order.
    pub fn to_bytes(&self) -> (r: Vec<u8>)
        ensures
            holds_words(sim_param_words(*self), r@),
            r@.len() == 32,
    {
        let words = self.to_words();
        words_as_bytes(words.as_slice())
    }
}

/// The flat index of the sink placed at the grid's centre.
pub open spec fn sink_index(c: GridConfig) -> int {
    flat_index_of(c, (c.dim_x / 2) as int, (c.dim_y / 2) as int, (c.dim_z / 2) as int)
}

/// A source is placed ten voxels along x from the centre when that voxel lies
/// inside the grid.
pub open spec fn has_source(c: GridConfig) -> bool {
    c.dim_x / 2 + 10 < c.dim_x
}

/// The flat index of that source.
pub open spec fn source_index(c: GridConfig) -> int {
    flat_index_of(c, c.dim_x / 2 + 10, (c.dim_y / 2) as int, (c.dim_z / 2) as int)
}

/// The starting voxel at flat index `i`: the source where there is one, the
/// sink at the centre, and an ambient voxel everywhere else.
pub open spec fn initial_voxel(c: GridConfig, i: int) -> GpuVoxel {
    if has_source(c) && i == source_index(c) {
        voxel_of(CEILING_PRESSURE, IdState::Source, 0, 0)
    } else if i == sink_index(c) {
        voxel_of(SINK_PRESSURE, IdState::Sink, 0, 0)
    } else {
        voxel_of(BASELINE_PRESSURE, IdState::Ambient, 0, 0)
    }
}

/// What the starting lattice holds at each position: the source at
/// (dim_x/2 + 10, dim_y/2, dim_z/2) when that lies inside the grid, the sink at
/// the centre, and an ambient voxel at every other position.
pub proof fn lemma_initial_voxel_by_position(c: GridConfig, x: int, y: int, z: int)
    requires
        voxel_count_fits(c),
        0 <= x < c.dim_x,
        0 <= y < c.dim_y,
        0 <= z < c.dim_z,
    ensures
        initial_voxel(c, flat_index_of(c, x, y, z)) == (if x == c.dim_x / 2 + 10 && y == c.dim_y
            / 2 && z == c.dim_z / 2 {
            voxel_of(CEILING_PRESSURE, IdState::Source, 0, 0)
        } else if x == c.dim_x / 2 && y == c.dim_y / 2 && z == c.dim_z / 2 {
            voxel_of(SINK_PRESSURE, IdState::Sink, 0, 0)
        } else {
            voxel_of(BASELINE_PRESSURE, IdState::Ambient, 0, 0)
        }),
{
    let cx = (c.dim_x / 2) as int;
    let cy = (c.dim_y / 2) as int;
    let cz = (c.dim_z / 2) as int;
    if has_source(c) && flat_index_of(c, x, y, z) == source_index(c) {
        lemma_flat_index_injective(c, x, y, z, cx + 10, cy, cz);
    }
    if flat_index_of(c, x, y, z) == sink_index(c) {
        lemma_flat_index_injective(c, x, y, z, cx, cy, cz);
    }
}

/// In the starting lattice exactly one voxel, the source ten voxels along x
/// from the centre, has ceiling pressure, and only when it lies inside the
/// grid; exactly one voxel, the centre, has sink pressure.
pub proof fn lemma_initial_pressures(c: GridConfig, i: int)
    requires
        voxel_count_fits(c),
        0 <= i < voxel_count(c),
    ensures
        initial_voxel(c, i).pressure == CEILING_PRESSURE <==> (c.dim_x / 2 + 10 < c.dim_x && i
            == flat_index_of(c, c.dim_x / 2 + 10, (c.dim_y / 2) as int, (c.dim_z / 2) as int)),
        initial_voxel(c, i).pressure == SINK_PRESSURE <==> i == flat_index_of(
            c,
            (c.dim_x / 2) as int,
            (c.dim_y / 2) as int,
            (c.dim_z / 2) as int,
        ),
{
}

/// A lattice held on the GPU twice: one buffer is read while the other is
/// written, and the two change roles after every simulation step.
pub struct DoubleBufferGrid {
    pub config: GridConfig,
    pub buffer_a: wgpu::Buffer,
    pub buffer_b: wgpu::Buffer,
    pub param_buffer: wgpu::Buffer,
    pub bind_group_a_read: Option<wgpu::BindGroup>,
    pub bind_group_b_read: Option<wgpu::BindGroup>,
    pub current_read_a: bool,
}

/// The grid after its buffers have changed roles.
pub open spec fn swapped(g: DoubleBufferGrid) -> DoubleBufferGrid {
    DoubleBufferGrid { current_read_a: !g.current_read_a, ..g }
}

impl DoubleBufferGrid {
    /// The starting contents of the lattice: ambient voxels everywhere, a sink
    /// at the centre and, where the grid is wide enough, a source ten voxels
    /// along x from it.
    pub fn initial_voxels(config: &GridConfig) -> (r: Vec<GpuVoxel>)
        requires
            voxel_count_fits(*config),
            config.dim_x >= 1,
            config.dim_y >= 1,
            config.dim_z >= 1,
        ensures
            r@.len() == voxel_count(*config),
            forall|i: int| 0 <= i < r@.len() ==> #[trigger] r@[i] == initial_voxel(*config, i),
            forall|x: int, y: int, z: int|
                0 <= x < config.dim_x && 0 <= y < config.dim_y && 0 <= z < config.dim_z
                    ==> #[trigger] r@[flat_index_of(*config, x, y, z)] == (if x == config.dim_x / 2
                    + 10 && y == config.dim_y / 2 && z == config.dim_z / 2 {
                    voxel_of(CEILING_PRESSURE, IdState::Source, 0, 0)
                } else if x == config.dim_x / 2 && y == config.dim_y / 2 && z == config.dim_z / 2 {
                    voxel_of(SINK_PRESSURE, IdState::Sink, 0, 0)
                } else {
                    voxel_of(BASELINE_PRESSURE, IdState::Ambient, 0, 0)
                }),
            forall|i: int|
                0 <= i < r@.len() ==> ((#[trigger] r@[i]).pressure == CEILING_PRESSURE <==> (
                config.dim_x / 2 + 10 < config.dim_x && i == flat_index_of(
                    *config,
                    config.dim_x / 2 + 10,
                    (config.dim_y / 2) as int,
                    (config.dim_z / 2) as int,
                ))),
    {
        let total = config.total_voxels();
        let mut data: Vec<GpuVoxel> = Vec::new();
        let ambient = GpuVoxel::ambient();
        let mut i: usize = 0;
        while i < total
            invariant
                i <= total,
                data@.len() == i,
                forall|j: int| 0 <= j < i ==> #[trigger] data@[j] == ambient,
            decreases total - i,
        {
            data.push(ambient);
            i = i + 1;
        }
        let cx = config.dim_x / 2;
        let cy = config.dim_y / 2;
        let cz = config.dim_z / 2;
        proof {
            lemma_flat_index_decodes(*config, cx as int, cy as int, cz as int);
        }
        let sink_idx = config.flat_index(cx, cy, cz);
        data.set(sink_idx, GpuVoxel::sink());
        if cx + 10 < config.dim_x {
            proof {
                lemma_flat_index_decodes(*config, cx + 10, cy as int, cz as int);
            }
            let source_idx = config.flat_index(cx + 10, cy, cz);
            data.set(source_idx, GpuVoxel::source());
        }
        proof {
            let c = *config;
            assert forall|x: int, y: int, z: int|
                0 <= x < c.dim_x && 0 <= y < c.dim_y && 0 <= z < c.dim_z implies #[trigger] data@[flat_index_of(
                c,
                x,
                y,
                z,
            )] == (if x == c.dim_x / 2 + 10 && y == c.dim_y / 2 && z == c.dim_z / 2 {
                voxel_of(CEILING_PRESSURE, IdState::Source, 0, 0)
            } else if x == c.dim_x / 2 && y == c.dim_y / 2 && z == c.dim_z / 2 {
                voxel_of(SINK_PRESSURE, IdState::Sink, 0, 0)
            } else {
                voxel_of(BASELINE_PRESSURE, IdState::Ambient, 0, 0)
            }) by {
                lemma_initial_voxel_by_position(c, x, y, z);
                lemma_flat_index_decodes(c, x, y, z);
            }
            assert forall|i: int| 0 <= i < data@.len() implies ((#[trigger] data@[i]).pressure
                == CEILING_PRESSURE <==> (c.dim_x / 2 + 10 < c.dim_x && i == flat_index_of(
                c,
                c.dim_x / 2 + 10,
                (c.dim_y / 2) as int,
                (c.dim_z / 2) as int,
            ))) by {
                lemma_initial_pressures(c, i);
            }
        }
        data
    }

    /// A grid over the given buffers, reading buffer A first, with no bind
    /// groups yet.
    pub fn new(
        config: GridConfig,
        buffer_a: wgpu::Buffer,
        buffer_b: wgpu::Buffer,
        param_buffer: wgpu::Buffer,
    ) -> (r: Self)
        ensures
            r.config == config,
            r.buffer_a == buffer_a,
            r.buffer_b == buffer_b,
            r.param_buffer == param_buffer,
            r.bind_group_a_read is None,
            r.bind_group_b_read is None,
            r.current_read_a,
    {
        Self {
            config,
            buffer_a,
            buffer_b,
            param_buffer,
            bind_group_a_read: None,
            bind_group_b_read: None,
            current_read_a: true,
        }
    }

    /// Exchanges the roles of the two buffers.
    pub fn swap(&mut self)
        ensures
            *final(self) == swapped(*old(self)),
    {
        self.current_read_a = !self.current_read_a;
    }
}

/// Swapping twice restores the grid: the buffers alternate roles.
pub proof fn lemma_swap_twice(g: DoubleBufferGrid)
    ensures
        swapped(swapped(g)) == g,
        swapped(g).current_read_a != g.current_read_a,
{
}

} // verus!
