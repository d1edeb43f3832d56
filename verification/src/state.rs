//! Block states and the fixed chunk geometry constants.

use vstd::prelude::*;

verus! {

/// Horizontal edge length of a chunk, in cells.
pub const CHUNK_WIDTH: usize = 16;

/// Number of cells in one horizontal slice of a chunk.
pub const CHUNK_AREA: usize = 256;

/// Total height of a chunk, in cells.
pub const CHUNK_HEIGHT: usize = 256;

/// Total number of cells in a chunk.
pub const CHUNK_VOLUME: usize = 65536;

/// Height of one horizontal section of a chunk, in cells.
pub const CHUNK_SECTION_HEIGHT: usize = 16;

/// Number of horizontal sections in a chunk.
pub const CHUNK_SECTIONS: usize = 16;

/// Identifies one renderable variant of a block: the block type together with
/// an augment index that disambiguates among that block's visual variants.
#[derive(Clone, Copy, Debug, PartialEq, Eq, Structural)]
pub struct BlockstateKey {
    pub block: u16,
    pub augment: u16,
}

impl BlockstateKey {
    /// The single registry index that this key packs into.
    pub open spec fn spec_pack(self) -> int {
        self.block * 65536 + self.augment
    }

    /// Packs the key into its registry index.
    pub fn pack(self) -> (r: u32)
        ensures
            r == self.spec_pack(),
    {
        (self.block as u32) * 65536 + (self.augment as u32)
    }
}

/// The occupancy of one cell: either no block (outside the loaded volume or
/// genuinely empty), or a resolved block-state key.
#[derive(Clone, Copy, Debug, PartialEq, Eq, Structural)]
pub enum ChunkBlockState {
    Absent,
    State(BlockstateKey),
}

impl ChunkBlockState {
    /// The registry index of this state, if it carries one.
    pub open spec fn spec_packed_key(self) -> Option<int> {
        match self {
            ChunkBlockState::Absent => None,
            ChunkBlockState::State(key) => Some(key.spec_pack()),
        }
    }

    /// Returns the registry index of this state, or `None` for an absent cell.
    pub fn packed_key(self) -> (r: Option<u32>)
        ensures
            match r {
                Some(k) => self.spec_packed_key() == Some(k as int),
                None => self.spec_packed_key() is None,
            },
    {
        match self {
            ChunkBlockState::Absent => None,
            ChunkBlockState::State(key) => Some(key.pack()),
        }
    }
}

} // verus!
