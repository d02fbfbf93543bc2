//! How many workgroups one simulation step dispatches.
use vstd::prelude::*;
use crate::sim::grid::GridConfig;

verus! {

/// Voxels along each axis that one workgroup of the simulation shader covers.
pub const WORKGROUP_SIZE: u32 = 8;

/// Workgroups needed along an axis of `d` voxels: `d / 8`, rounded up.
pub open spec fn workgroups_for(d: int) -> int {
    (d + 7) / 8
}

/// The workgroup counts along x, y and z for one simulation step over the
/// grid: each axis divided by eight, rounded up, so that the workgroups cover
/// every voxel and no workgroup lies wholly outside the grid.
pub fn workgroup_counts(config: &GridConfig) -> (r: (u32, u32, u32))
    requires
        config.dim_x <= u32::MAX - 7,
        config.dim_y <= u32::MAX - 7,
        config.dim_z <= u32::MAX - 7,
    ensures
        r.0 == workgroups_for(config.dim_x as int),
        r.1 == workgroups_for(config.dim_y as int),
        r.2 == workgroups_for(config.dim_z as int),
        8 * r.0 >= config.dim_x && 8 * r.0 < config.dim_x + 8,
        8 * r.1 >= config.dim_y && 8 * r.1 < config.dim_y + 8,
        8 * r.2 >= config.dim_z && 8 * r.2 < config.dim_z + 8,
{
    let wg_x = (config.dim_x + 7) / 8;
    let wg_y = (config.dim_y + 7) / 8;
    let wg_z = (config.dim_z + 7) / 8;
    (wg_x, wg_y, wg_z)
}

} // verus!
