use vast7_engine::sim::voxel::{
    pack_voxel_state, unpack_voxel_state, voxels_to_bytes, voxels_to_words, GpuVoxel, IdState,
    BASELINE_PRESSURE, CEILING_PRESSURE, SINK_PRESSURE,
};

#[test]
fn pack_places_fields_in_their_bits() {
    assert_eq!(pack_voxel_state(1, 14, 100), 2 + 4 * 14 + 128 * 100);
    assert_eq!(pack_voxel_state(-1, 0, 0), 0);
    assert_eq!(pack_voxel_state(0, 0, 0), 1);
    assert_eq!(pack_voxel_state(2, 31, 33554431), u32::MAX);
}

#[test]
fn pack_drops_bits_that_do_not_fit() {
    assert_eq!(pack_voxel_state(0, 33, 0), pack_voxel_state(0, 1, 0));
    assert_eq!(pack_voxel_state(0, 0, 33554432 + 5), pack_voxel_state(0, 0, 5));
    // id 3 wraps to the sink's bits, id -2 to the top value of the field
    assert_eq!(pack_voxel_state(3, 0, 0), pack_voxel_state(-1, 0, 0));
    assert_eq!(pack_voxel_state(-2, 0, 0), 3);
    assert_eq!(pack_voxel_state(i32::MIN, 0, 0), 1);
}

#[test]
fn unpack_reads_each_field() {
    assert_eq!(unpack_voxel_state(0), (-1, 0, 0));
    assert_eq!(unpack_voxel_state(u32::MAX), (2, 31, 33554431));
    assert_eq!(unpack_voxel_state(2 + 4 * 14 + 128 * 100), (1, 14, 100));
}

#[test]
fn every_word_repacks_to_itself() {
    for word in [0u32, 1, 2, 3, 0xDEAD_BEEF, 0x8000_0000, u32::MAX, 12345] {
        let (id, vector, momentum) = unpack_voxel_state(word);
        assert_eq!(pack_voxel_state(id, vector, momentum), word);
    }
}

#[test]
fn unpack_of_pack_cuts_to_field_widths() {
    let packed = pack_voxel_state(0, 40, 33554432 * 3 + 7);
    assert_eq!(unpack_voxel_state(packed), (0, 8, 7));
}

#[test]
fn id_state_integers() {
    assert_eq!(IdState::Sink.to_i32(), -1);
    assert_eq!(IdState::Ambient.to_i32(), 0);
    assert_eq!(IdState::Source.to_i32(), 1);
    assert_eq!(IdState::from_i32(-1), IdState::Sink);
    assert_eq!(IdState::from_i32(0), IdState::Ambient);
    assert_eq!(IdState::from_i32(1), IdState::Source);
    assert_eq!(IdState::from_i32(2), IdState::Ambient);
    assert_eq!(IdState::from_i32(-7), IdState::Ambient);
    for s in [IdState::Sink, IdState::Ambient, IdState::Source] {
        assert_eq!(IdState::from_i32(s.to_i32()), s);
    }
}

#[test]
fn fixed_voxels_have_their_words() {
    let a = GpuVoxel::ambient();
    assert_eq!((a.pressure, a.packed_state), (BASELINE_PRESSURE, 1));
    let s = GpuVoxel::sink();
    assert_eq!((s.pressure, s.packed_state), (SINK_PRESSURE, 0));
    let c = GpuVoxel::source();
    assert_eq!((c.pressure, c.packed_state), (CEILING_PRESSURE, 2));
    assert_eq!(BASELINE_PRESSURE, 1 << 30);
    assert_eq!(CEILING_PRESSURE, 1 << 31);
}

#[test]
fn voxel_new_round_trips_through_unpack() {
    let v = GpuVoxel::new(777, IdState::Source, 40, 33554432 + 9);
    assert_eq!(v.unpack(), (777, IdState::Source, 8, 9));
    let w = GpuVoxel::new(5, IdState::Sink, 31, 33554431);
    assert_eq!(w.unpack(), (5, IdState::Sink, 31, 33554431));
}

#[test]
fn unpack_reads_unknown_identity_as_ambient() {
    let v = GpuVoxel { pressure: 9, packed_state: 3 };
    assert_eq!(v.unpack(), (9, IdState::Ambient, 0, 0));
}

#[test]
fn voxel_words_interleave_pressure_and_state() {
    let voxels = [GpuVoxel::sink(), GpuVoxel::new(0x0102_0304, IdState::Source, 3, 4)];
    let words = voxels_to_words(&voxels);
    assert_eq!(words, vec![0, 0, 0x0102_0304, voxels[1].packed_state]);
    assert!(voxels_to_words(&[]).is_empty());
}

#[test]
fn voxel_bytes_are_the_words_in_memory_order() {
    let voxels = [GpuVoxel::new(0x0102_0304, IdState::Source, 3, 4), GpuVoxel::ambient()];
    let bytes = voxels_to_bytes(&voxels);
    assert_eq!(bytes.len(), 16);
    assert_eq!(&bytes[0..4], &0x0102_0304u32.to_ne_bytes());
    assert_eq!(&bytes[4..8], &voxels[0].packed_state.to_ne_bytes());
    assert_eq!(&bytes[8..12], &BASELINE_PRESSURE.to_ne_bytes());
    assert_eq!(&bytes[12..16], &1u32.to_ne_bytes());
}
