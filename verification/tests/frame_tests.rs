use std::cell::RefCell;
use std::rc::Rc;
use vast7_engine::compute::pipeline::workgroup_counts;
use vast7_engine::gui::ui::{GuiOverlay, SimulationState};
use vast7_engine::render::pipeline::{depth_extent, LatticeMesh};
use vast7_engine::sim::grid::GridConfig;

#[test]
fn default_state_runs_one_tick_per_frame() {
    let s = SimulationState::default();
    assert!(s.is_running);
    assert!(!s.single_step);
    assert_eq!(s.ticks_per_frame, 1);
    assert_eq!(s.total_ticks, 0);
    assert_eq!(s.selected_aperture_type, -1);
    assert_eq!(s.active_scale_level, 0);
}

#[test]
fn running_frames_count_their_ticks() {
    let mut s = SimulationState::default();
    s.ticks_per_frame = 5;
    assert_eq!(s.begin_frame(), 5);
    assert_eq!(s.begin_frame(), 5);
    assert_eq!(s.total_ticks, 10);
}

#[test]
fn paused_frame_does_nothing() {
    let mut s = SimulationState::default();
    s.is_running = false;
    s.total_ticks = 7;
    assert_eq!(s.begin_frame(), 0);
    assert_eq!(s.total_ticks, 7);
}

#[test]
fn single_step_runs_one_tick_once() {
    let mut s = SimulationState::default();
    s.is_running = false;
    s.single_step = true;
    s.ticks_per_frame = 9;
    assert_eq!(s.begin_frame(), 1);
    assert!(!s.single_step);
    assert_eq!(s.total_ticks, 1);
    assert_eq!(s.begin_frame(), 0);
    s.is_running = true;
    s.single_step = true;
    assert_eq!(s.begin_frame(), 1);
    assert_eq!(s.begin_frame(), 9);
    assert_eq!(s.total_ticks, 11);
}

#[test]
fn overlay_shares_the_state() {
    let state = Rc::new(RefCell::new(SimulationState::default()));
    let overlay = GuiOverlay::new(state.clone());
    state.borrow_mut().total_ticks = 42;
    assert_eq!(overlay.state.borrow().total_ticks, 42);
    assert!(Rc::ptr_eq(&overlay.state, &state));
}

#[test]
fn workgroups_cover_the_grid() {
    assert_eq!(workgroup_counts(&GridConfig::default()), (8, 8, 8));
    assert_eq!(workgroup_counts(&GridConfig { dim_x: 65, dim_y: 1, dim_z: 0 }), (9, 1, 0));
    assert_eq!(workgroup_counts(&GridConfig { dim_x: 8, dim_y: 9, dim_z: 16 }), (1, 2, 2));
}

#[test]
fn depth_extent_is_at_least_one() {
    assert_eq!(depth_extent(0, 600), (1, 600));
    assert_eq!(depth_extent(1280, 0), (1280, 1));
    assert_eq!(depth_extent(1280, 720), (1280, 720));
}

#[test]
fn mesh_of_small_grid() {
    let mesh = LatticeMesh::build(&GridConfig { dim_x: 8, dim_y: 8, dim_z: 8 });
    assert_eq!(mesh.grid_coords.len(), 8);
    assert_eq!(mesh.grid_coords[0], [0, 0, 0]);
    assert_eq!(mesh.grid_coords[1], [4, 0, 0]);
    assert_eq!(mesh.grid_coords[2], [0, 4, 0]);
    assert_eq!(mesh.grid_coords[5], [4, 0, 4]);
    assert_eq!(mesh.grid_coords[7], [4, 4, 4]);
    assert_eq!(
        mesh.indices,
        vec![
            0, 1, 0, 2, 0, 4, // (0,0,0)
            1, 3, 1, 5, // (4,0,0)
            2, 3, 2, 6, // (0,4,0)
            3, 7, // (4,4,0)
            4, 5, 4, 6, // (0,0,4)
            5, 7, // (4,0,4)
            6, 7, // (0,4,4)
        ]
    );
}

#[test]
fn mesh_edges_join_neighbours() {
    let mesh = LatticeMesh::build(&GridConfig::default());
    assert_eq!(mesh.grid_coords.len(), 16 * 16 * 16);
    assert_eq!(mesh.indices.len(), 2 * 3 * 15 * 16 * 16);
    for pair in mesh.indices.chunks(2) {
        let a = mesh.grid_coords[pair[0] as usize];
        let b = mesh.grid_coords[pair[1] as usize];
        let steps: Vec<u32> = (0..3).map(|k| b[k] - a[k]).collect();
        let mut sorted = steps.clone();
        sorted.sort();
        assert_eq!(sorted, vec![0, 0, 4]);
    }
}

#[test]
fn mesh_of_uneven_grid() {
    let mesh = LatticeMesh::build(&GridConfig { dim_x: 5, dim_y: 1, dim_z: 1 });
    assert_eq!(mesh.grid_coords, vec![[0, 0, 0], [4, 0, 0]]);
    assert_eq!(mesh.indices, vec![0, 1]);
    let empty = LatticeMesh::build(&GridConfig { dim_x: 0, dim_y: 4, dim_z: 4 });
    assert!(empty.grid_coords.is_empty());
    assert!(empty.indices.is_empty());
}
