use vstd::prelude::*;

verus! {

/// Number of low bits of an id that hold the index.
pub const ENTITY_INDEX_BITS: u32 = 22;

/// Mask selecting the index bits of an id.
pub const ENTITY_INDEX_MASK: u32 = 0x3f_ffff;

/// Mask selecting the generation bits once shifted down.
pub const ENTITY_GENERATION_MASK: u32 = 0xff;

/// Largest number of indices an allocator may hand out.
pub const MAX_INDICES: usize = 0x40_0000;

/// An opaque handle: index in bits 0..22, generation in bits 22..30.
#[derive(Debug, PartialEq, Eq, Hash, Clone, Copy, Structural)]
pub struct Entity {
    pub id: u32,
}

/// The index encoded in a raw id.
pub open spec fn index_of(id: u32) -> u32 {
    id & 0x3f_ffff
}

/// The generation encoded in a raw id.
pub open spec fn generation_of(id: u32) -> u32 {
    (id >> 22u32) & 0xff
}

/// The raw id that packs an index and a generation.
pub open spec fn pack(index: u32, generation: u8) -> u32 {
    index | ((generation as u32) << 22u32)
}

impl Entity {
    pub open spec fn spec_index(self) -> u32 {
        index_of(self.id)
    }

    pub open spec fn spec_generation(self) -> u32 {
        generation_of(self.id)
    }

    /// Returns the index of this entity.
    pub fn index(&self) -> (r: u32)
        ensures
            r == self.spec_index(),
            r < 0x40_0000,
    {
        let id = self.id;
        let r = id & ENTITY_INDEX_MASK;
        assert(r < 0x40_0000) by (bit_vector)
            requires
                r == id & 0x3f_ffffu32,
        ;
        r
    }

    /// Returns the generation of this entity.
    pub fn generation(&self) -> (r: u32)
        ensures
            r == self.spec_generation(),
            r < 256,
    {
        let id = self.id;
        let r = (id >> ENTITY_INDEX_BITS) & ENTITY_GENERATION_MASK;
        assert(r < 256) by (bit_vector)
            requires
                r == (id >> 22u32) & 0xffu32,
        ;
        r
    }

    /// Returns the raw 32-bit id.
    pub fn value(&self) -> (r: u32)
        ensures
            r == self.id,
    {
        self.id
    }

    /// Packs an index and a generation into an entity.
    pub fn make_entity(index: u32, generation: u8) -> (r: Entity)
        requires
            index < 0x40_0000,
        ensures
            r.id == pack(index, generation),
            r.spec_index() == index,
            r.spec_generation() == generation as u32,
    {
        let id = index | ((generation as u32) << ENTITY_INDEX_BITS);
        proof {
            lemma_pack(index, generation);
        }
        Entity { id }
    }
}

/// Unpacking a packed id gives back its index and generation.
pub proof fn lemma_pack(index: u32, generation: u8)
    requires
        index < 0x40_0000,
    ensures
        index_of(pack(index, generation)) == index,
        generation_of(pack(index, generation)) == generation as u32,
{
    let g = generation as u32;
    let id = pack(index, generation);
    assert(index_of(id) == index && generation_of(id) == g) by (bit_vector)
        requires
            index < 0x40_0000u32,
            g < 256u32,
            id == index | (g << 22u32),
    ;
}

} // verus!
