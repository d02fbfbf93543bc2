//! The 8-byte voxel record and the bit layout of its packed state word.
use vstd::prelude::*;
use crate::gpu_layout::{holds_words, words_as_bytes};

verus! {

/// Pressure of an ordinary voxel (2^30).
pub const BASELINE_PRESSURE: u32 = 1_073_741_824;

/// Pressure of a source voxel (2^31).
pub const CEILING_PRESSURE: u32 = 2_147_483_648;

/// Pressure of a sink voxel.
pub const SINK_PRESSURE: u32 = 0;

/// Largest momentum (exclusive bound) that the packed word can hold: 2^25.
pub const MOMENTUM_LIMIT: u32 = 33_554_432;

/// Largest vector value (exclusive bound) that the packed word can hold: 2^5.
pub const VECTOR_LIMIT: u32 = 32;

/// The identity of a voxel: a sink, an ordinary (ambient) voxel or a source.
#[derive(Debug, Clone, Copy, PartialEq, Eq, Structural)]
pub enum IdState {
    Sink,
    Ambient,
    Source,
}

/// The integer that stands for an identity: -1, 0 or 1.
pub open spec fn id_value(s: IdState) -> int {
    match s {
        IdState::Sink => -1,
        IdState::Ambient => 0,
        IdState::Source => 1,
    }
}

/// The identity that an integer stands for: -1 and 1 name a sink and a
/// source, every other integer an ambient voxel.
pub open spec fn id_of_value(v: int) -> IdState {
    if v == -1 {
        IdState::Sink
    } else if v == 1 {
        IdState::Source
    } else {
        IdState::Ambient
    }
}

impl IdState {
    /// Reads an identity from its integer; unknown integers read as `Ambient`.
    pub fn from_i32(val: i32) -> (r: IdState)
        ensures
            r == id_of_value(val as int),
    {
        match val {
            -1 => IdState::Sink,
            1 => IdState::Source,
            _ => IdState::Ambient,
        }
    }

    /// The integer of this identity.
    pub fn to_i32(self) -> (r: i32)
        ensures
            r as int == id_value(self),
    {
        match self {
            IdState::Sink => -1,
            IdState::Ambient => 0,
            IdState::Source => 1,
        }
    }
}

/// The packed state word for an identity integer, a vector and a momentum:
/// bits 0-1 hold `id + 1` (mod 4), bits 2-6 the low five bits of the vector,
/// bits 7-31 the low 25 bits of the momentum.
pub open spec fn packed_state_of(id_state: int, vector: int, momentum: int) -> int {
    (id_state + 1) % 4 + 4 * (vector % 32) + 128 * (momentum % 33_554_432)
}

/// The identity integer held in a packed word: its bits 0-1, minus one.
pub open spec fn unpacked_id(packed: int) -> int {
    packed % 4 - 1
}

/// The vector held in a packed word: its bits 2-6.
pub open spec fn unpacked_vector(packed: int) -> int {
    (packed / 4) % 32
}

/// The momentum held in a packed word: its bits 7-31.
pub open spec fn unpacked_momentum(packed: int) -> int {
    packed / 128
}

/// Packs an identity integer (bits 0-1, as `id + 1`), a vector (bits 2-6) and
/// a momentum (bits 7-31) into one word; bits that do not fit are dropped.
pub fn pack_voxel_state(id_state: i32, vector: u32, momentum: u32) -> (r: u32)
    requires
        id_state < i32::MAX,
    ensures
        r as int == packed_state_of(id_state as int, vector as int, momentum as int),
{
    let shifted: i32 = id_state + 1;
    let as_word: u32 = shifted as u32;
    proof {
        assert(shifted < 0 ==> as_word as int == shifted as int + 0x1_0000_0000) by (bit_vector)
            requires
                as_word == shifted as u32,
        ;
        assert(shifted >= 0 ==> as_word as int == shifted as int) by (bit_vector)
            requires
                as_word == shifted as u32,
        ;
    }
    let mapped_id = as_word & 0x3;
    let vec_bits = (vector & 0x1F) << 2;
    let mom_bits = (momentum & 0x1FF_FFFF) << 7;
    let r = mom_bits | vec_bits | mapped_id;
    proof {
        assert(r as int == as_word % 4 + 4 * (vector % 32) + 128 * (momentum % 33_554_432))
            by (bit_vector)
            requires
                mapped_id == as_word & 0x3,
                vec_bits == (vector & 0x1F) << 2,
                mom_bits == (momentum & 0x1FF_FFFF) << 7,
                r == mom_bits | vec_bits | mapped_id,
        ;
    }
    r
}

/// Splits a packed word into its identity integer, vector and momentum.
pub fn unpack_voxel_state(packed: u32) -> (r: (i32, u32, u32))
    ensures
        r.0 as int == unpacked_id(packed as int),
        r.1 as int == unpacked_vector(packed as int),
        r.2 as int == unpacked_momentum(packed as int),
{
    let mapped_id = packed & 0x3;
    assert(mapped_id == packed % 4) by (bit_vector)
        requires
            mapped_id == packed & 0x3,
    ;
    let id_state = (mapped_id as i32) - 1;
    let vector = (packed >> 2) & 0x1F;
    let momentum = packed >> 7;
    assert(vector == (packed / 4) % 32 && momentum == packed / 128) by (bit_vector)
        requires
            vector == (packed >> 2) & 0x1F,
            momentum == packed >> 7,
    ;
    (id_state, vector, momentum)
}

/// Unpacking a packed word gives back what was packed, each field cut to the
/// bits that it has in the word.
pub proof fn lemma_unpack_pack(id_state: int, vector: int, momentum: int)
    requires
        vector >= 0,
        momentum >= 0,
    ensures
        unpacked_id(packed_state_of(id_state, vector, momentum)) == (id_state + 1) % 4 - 1,
        unpacked_vector(packed_state_of(id_state, vector, momentum)) == vector % 32,
        unpacked_momentum(packed_state_of(id_state, vector, momentum)) == momentum % 33_554_432,
{
    let a: u32 = ((id_state + 1) % 4) as u32;
    let b: u32 = (vector % 32) as u32;
    let c: u32 = (momentum % 33_554_432) as u32;
    let p: u32 = (a + 4 * b + 128 * c) as u32;
    assert(p == a + 4 * b + 128 * c);
    assert(p % 4 == a && (p / 4) % 32 == b && p / 128 == c) by (bit_vector)
        requires
            a < 4,
            b < 32,
            c < 33_554_432,
            p == a + 4 * b + 128 * c,
    ;
}

/// Within the ranges that the word holds, packing then unpacking is the
/// identity.
pub proof fn lemma_unpack_pack_exact(id_state: int, vector: int, momentum: int)
    requires
        -1 <= id_state <= 2,
        0 <= vector < 32,
        0 <= momentum < 33_554_432,
    ensures
        unpacked_id(packed_state_of(id_state, vector, momentum)) == id_state,
        unpacked_vector(packed_state_of(id_state, vector, momentum)) == vector,
        unpacked_momentum(packed_state_of(id_state, vector, momentum)) == momentum,
{
    lemma_unpack_pack(id_state, vector, momentum);
}

/// Every word is a packed state: packing what a word unpacks to gives the word
/// back.
pub proof fn lemma_pack_unpack(packed: u32)
    ensures
        packed_state_of(
            unpacked_id(packed as int),
            unpacked_vector(packed as int),
            unpacked_momentum(packed as int),
        ) == packed as int,
{
    assert(packed % 4 + 4 * ((packed / 4) % 32) + 128 * ((packed / 128) % 33_554_432) == packed)
        by (bit_vector);
}

/// Reading an identity back from its integer gives the identity.
pub proof fn lemma_id_roundtrip(s: IdState)
    ensures
        id_of_value(id_value(s)) == s,
{
}

/// The integers -1, 0 and 1 are exactly those that survive a trip through an
/// identity.
pub proof fn lemma_id_value_roundtrip(v: int)
    ensures
        (id_value(id_of_value(v)) == v) <==> (-1 <= v <= 1),
{
}

/// An 8-byte voxel record as the GPU reads it: a pressure and a packed state.
#[derive(Debug, Clone, Copy)]
pub struct GpuVoxel {
    pub pressure: u32,
    pub packed_state: u32,
}

/// The voxel that `GpuVoxel::new` builds from its arguments.
pub open spec fn voxel_of(pressure: u32, id_state: IdState, vector: u8, momentum: u32) -> GpuVoxel {
    GpuVoxel {
        pressure,
        packed_state: packed_state_of(id_value(id_state), vector as int, momentum as int) as u32,
    }
}

impl GpuVoxel {
    /// A voxel with the given pressure whose state packs the identity, vector
    /// and momentum.
    pub fn new(pressure: u32, id_state: IdState, vector: u8, momentum: u32) -> (r: Self)
        ensures
            r == voxel_of(pressure, id_state, vector, momentum),
    {
        let packed_state = pack_voxel_state(id_state.to_i32(), vector as u32, momentum);
        Self { pressure, packed_state }
    }

    /// An ambient voxel at baseline pressure, at rest.
    pub fn ambient() -> (r: Self)
        ensures
            r == voxel_of(BASELINE_PRESSURE, IdState::Ambient, 0, 0),
            r.pressure == BASELINE_PRESSURE,
            r.packed_state == 1,
    {
        Self::new(BASELINE_PRESSURE, IdState::Ambient, 0, 0)
    }

    /// A sink voxel at zero pressure, at rest.
    pub fn sink() -> (r: Self)
        ensures
            r == voxel_of(SINK_PRESSURE, IdState::Sink, 0, 0),
            r.pressure == SINK_PRESSURE,
            r.packed_state == 0,
    {
        Self::new(SINK_PRESSURE, IdState::Sink, 0, 0)
    }

    /// A source voxel at ceiling pressure, at rest.
    pub fn source() -> (r: Self)
        ensures
            r == voxel_of(CEILING_PRESSURE, IdState::Source, 0, 0),
            r.pressure == CEILING_PRESSURE,
            r.packed_state == 2,
    {
        Self::new(CEILING_PRESSURE, IdState::Source, 0, 0)
    }

    /// The pressure, identity, vector and momentum of this voxel.
    pub fn unpack(&self) -> (r: (u32, IdState, u8, u32))
        ensures
            r.0 == self.pressure,
            r.1 == id_of_value(unpacked_id(self.packed_state as int)),
            r.2 as int == unpacked_vector(self.packed_state as int),
            r.3 as int == unpacked_momentum(self.packed_state as int),
    {
        let (id, vec, mom) = unpack_voxel_state(self.packed_state);
        (self.pressure, IdState::from_i32(id), vec as u8, mom)
    }
}

/// A voxel built from a pressure, an identity, a vector and a momentum
/// unpacks to that pressure and identity, the vector's low five bits and the
/// momentum's low 25 bits.
pub proof fn lemma_voxel_roundtrip(pressure: u32, id_state: IdState, vector: u8, momentum: u32)
    ensures
        ({
            let v = voxel_of(pressure, id_state, vector, momentum);
            &&& v.pressure == pressure
            &&& id_of_value(unpacked_id(v.packed_state as int)) == id_state
            &&& unpacked_vector(v.packed_state as int) == vector % 32
            &&& unpacked_momentum(v.packed_state as int) == momentum % 33_554_432
        }),
{
    let p = packed_state_of(id_value(id_state), vector as int, momentum as int);
    lemma_unpack_pack(id_value(id_state), vector as int, momentum as int);
    assert(0 <= p < 0x1_0000_0000);
}

/// The words of a run of voxels as the GPU reads them: each voxel's pressure,
/// then its packed state.
pub open spec fn voxel_words(voxels: Seq<GpuVoxel>) -> Seq<u32> {
    Seq::new(
        2 * voxels.len(),
        |j: int|
            if j % 2 == 0 {
                voxels[j / 2].pressure
            } else {
                voxels[j / 2].packed_state
            },
    )
}

/// The words of a run of voxels, two per voxel: pressure, then packed state.
pub fn voxels_to_words(voxels: &[GpuVoxel]) -> (r: Vec<u32>)
    requires
        2 * voxels@.len() <= usize::MAX,
    ensures
        r@ == voxel_words(voxels@),
{
    let mut words: Vec<u32> = Vec::new();
    let mut i: usize = 0;
    while i < voxels.len()
        invariant
            i <= voxels@.len(),
            2 * voxels@.len() <= usize::MAX,
            words@.len() == 2 * i,
            forall|j: int|
                0 <= j < 2 * i ==> #[trigger] words@[j] == (if j % 2 == 0 {
                    voxels@[j / 2].pressure
                } else {
                    voxels@[j / 2].packed_state
                }),
        decreases voxels@.len() - i,
    {
        words.push(voxels[i].pressure);
        words.push(voxels[i].packed_state);
        i = i + 1;
    }
    assert(words@ =~= voxel_words(voxels@));
    words
}

/// The bytes of a run of voxels as a GPU storage buffer holds them: eight per
/// voxel, the pressure word then the packed-state word, in the machine's byte
/// order.
pub fn voxels_to_bytes(voxels: &[GpuVoxel]) -> (r: Vec<u8>)
    requires
        2 * voxels@.len() <= usize::MAX,
    ensures
        holds_words(voxel_words(voxels@), r@),
        r@.len() == 8 * voxels@.len(),
{
    let words = voxels_to_words(voxels);
    words_as_bytes(words.as_slice())
}

} // verus!
