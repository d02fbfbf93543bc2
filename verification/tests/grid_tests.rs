use vast7_engine::sim::grid::{DoubleBufferGrid, GridConfig, SimParams};
use vast7_engine::sim::voxel::{GpuVoxel, BASELINE_PRESSURE, CEILING_PRESSURE};

#[test]
fn default_grid_is_64_cubed() {
    let c = GridConfig::default();
    assert_eq!((c.dim_x, c.dim_y, c.dim_z), (64, 64, 64));
    assert_eq!(c.total_voxels(), 262144);
}

#[test]
fn flat_index_is_x_fastest() {
    let c = GridConfig { dim_x: 3, dim_y: 5, dim_z: 7 };
    assert_eq!(c.total_voxels(), 105);
    assert_eq!(c.flat_index(1, 0, 0), 1);
    assert_eq!(c.flat_index(0, 1, 0), 3);
    assert_eq!(c.flat_index(0, 0, 1), 15);
    assert_eq!(c.flat_index(2, 4, 6), 104);
    // outside the grid the formula still applies
    assert_eq!(c.flat_index(4, 0, 0), 4);
}

#[test]
fn flat_index_numbers_every_voxel_once() {
    let c = GridConfig { dim_x: 3, dim_y: 4, dim_z: 2 };
    let mut seen = vec![false; c.total_voxels()];
    for z in 0..2u32 {
        for y in 0..4u32 {
            for x in 0..3u32 {
                let i = c.flat_index(x, y, z);
                assert!(i < c.total_voxels());
                assert!(!seen[i]);
                seen[i] = true;
                assert_eq!(i % 3, x as usize);
                assert_eq!((i / 3) % 4, y as usize);
                assert_eq!(i / 12, z as usize);
            }
        }
    }
    assert!(seen.iter().all(|&b| b));
}

fn is_same(a: &GpuVoxel, b: &GpuVoxel) -> bool {
    a.pressure == b.pressure && a.packed_state == b.packed_state
}

#[test]
fn initial_grid_has_sink_and_source() {
    let c = GridConfig::default();
    let data = DoubleBufferGrid::initial_voxels(&c);
    assert_eq!(data.len(), 64 * 64 * 64);
    let sink_idx = c.flat_index(32, 32, 32);
    let source_idx = c.flat_index(42, 32, 32);
    assert!(is_same(&data[sink_idx], &GpuVoxel::sink()));
    assert!(is_same(&data[source_idx], &GpuVoxel::source()));
    let ambient = GpuVoxel::ambient();
    let others = data
        .iter()
        .enumerate()
        .filter(|(i, _)| *i != sink_idx && *i != source_idx)
        .all(|(_, v)| is_same(v, &ambient));
    assert!(others);
}

#[test]
fn small_grid_has_no_source() {
    let c = GridConfig { dim_x: 4, dim_y: 3, dim_z: 2 };
    let data = DoubleBufferGrid::initial_voxels(&c);
    assert_eq!(data.len(), 24);
    let sink_idx = c.flat_index(2, 1, 1);
    assert_eq!(sink_idx, 2 + 4 + 12);
    for (i, v) in data.iter().enumerate() {
        if i == sink_idx {
            assert!(is_same(v, &GpuVoxel::sink()));
        } else {
            assert!(is_same(v, &GpuVoxel::ambient()));
        }
    }
}

#[test]
fn source_appears_once_grid_is_wide_enough() {
    let narrow = DoubleBufferGrid::initial_voxels(&GridConfig { dim_x: 20, dim_y: 1, dim_z: 1 });
    assert!(narrow.iter().all(|v| v.pressure != CEILING_PRESSURE));
    let wide = DoubleBufferGrid::initial_voxels(&GridConfig { dim_x: 21, dim_y: 1, dim_z: 1 });
    assert!(is_same(&wide[10], &GpuVoxel::sink()));
    assert!(is_same(&wide[20], &GpuVoxel::source()));
}

#[test]
fn sim_params_describe_the_grid() {
    let c = GridConfig { dim_x: 10, dim_y: 20, dim_z: 30 };
    let p = SimParams::for_grid(&c);
    assert_eq!(p.grid_dim, [10, 20, 30, 0]);
    assert_eq!(p.baseline_pressure, BASELINE_PRESSURE);
    assert_eq!(p.ceiling_pressure, CEILING_PRESSURE);
    assert_eq!(p.padding, [0, 0]);
    assert_eq!(p.to_words(), vec![10, 20, 30, 0, BASELINE_PRESSURE, CEILING_PRESSURE, 0, 0]);
    let bytes = p.to_bytes();
    assert_eq!(bytes.len(), 32);
    assert_eq!(&bytes[4..8], &20u32.to_ne_bytes());
    assert_eq!(&bytes[16..20], &BASELINE_PRESSURE.to_ne_bytes());
}
