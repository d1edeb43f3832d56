//! Block-state providers: the baker's source of cell occupancy. A provider
//! answers any integer coordinate the baker may probe, including coordinates
//! one cell outside the chunk volume, and answers `Absent` for anything it
//! cannot resolve.

use vstd::prelude::*;

use crate::state::{ChunkBlockState, CHUNK_AREA, CHUNK_HEIGHT, CHUNK_SECTIONS, CHUNK_SECTION_HEIGHT, CHUNK_VOLUME, CHUNK_WIDTH};

verus! {

/// Whether `(x, y, z)` lies inside the chunk volume.
pub open spec fn in_volume(x: int, y: int, z: int) -> bool {
    &&& 0 <= x < CHUNK_WIDTH
    &&& 0 <= y < CHUNK_HEIGHT
    &&& 0 <= z < CHUNK_WIDTH
}

/// The flat cell index of in-volume coordinates `(x, y, z)`.
pub open spec fn cell_index(x: int, y: int, z: int) -> int {
    y * CHUNK_AREA + z * CHUNK_WIDTH + x
}

/// Supplies block occupancy per cell. `get_state` must answer every integer
/// coordinate; `is_section_empty` is a conservative optimization hint — a
/// true answer asserts that the whole horizontal section holds no block.
pub trait BlockStateProvider: Sized {
    /// The state this provider assigns to `(x, y, z)`.
    spec fn spec_state(&self, x: int, y: int, z: int) -> ChunkBlockState;

    /// Returns the state occupying `(x, y, z)`, or `Absent` for a coordinate
    /// this provider cannot resolve.
    fn get_state(&self, x: i32, y: i16, z: i32) -> (r: ChunkBlockState)
        ensures
            r == self.spec_state(x as int, y as int, z as int),
    ;

    /// Returns whether horizontal section `index` is known to hold no block.
    /// Conservative: `false` carries no information.
    fn is_section_empty(&self, index: usize) -> (r: bool)
        ensures
            r ==> forall|x: int, y: int, z: int|
                0 <= x < CHUNK_WIDTH && 0 <= z < CHUNK_WIDTH && index as int * CHUNK_SECTION_HEIGHT
                    <= y < (index as int + 1) * CHUNK_SECTION_HEIGHT ==> self.spec_state(
                    x,
                    y,
                    z,
                ) is Absent,
    ;
}

/// A provider that answers the same state for every coordinate; used for
/// isolated single-block rendering.
#[derive(Clone, Copy, Debug)]
pub struct SimpleBlockstateProvider {
    pub state: ChunkBlockState,
}

impl BlockStateProvider for SimpleBlockstateProvider {
    open spec fn spec_state(&self, x: int, y: int, z: int) -> ChunkBlockState {
        self.state
    }

    fn get_state(&self, x: i32, y: i16, z: i32) -> (r: ChunkBlockState) {
        self.state
    }

    fn is_section_empty(&self, index: usize) -> (r: bool) {
        match self.state {
            ChunkBlockState::Absent => true,
            ChunkBlockState::State(_) => false,
        }
    }
}

/// The production provider: a full chunk volume of cells, stored flat with x
/// varying fastest, then z, then y. Coordinates outside the volume, or any
/// query against a container of the wrong size, answer `Absent`.
#[derive(Debug)]
pub struct ChunkArrayProvider {
    pub cells: Vec<ChunkBlockState>,
}

impl ChunkArrayProvider {
    /// The container holds exactly one cell per coordinate of the volume.
    pub open spec fn wf(&self) -> bool {
        self.cells@.len() == CHUNK_VOLUME
    }
}

impl BlockStateProvider for ChunkArrayProvider {
    open spec fn spec_state(&self, x: int, y: int, z: int) -> ChunkBlockState {
        if self.wf() && in_volume(x, y, z) {
            self.cells@[cell_index(x, y, z)]
        } else {
            ChunkBlockState::Absent
        }
    }

    fn get_state(&self, x: i32, y: i16, z: i32) -> (r: ChunkBlockState) {
        if self.cells.len() == CHUNK_VOLUME && 0 <= x && x < CHUNK_WIDTH as i32 && 0 <= y && (y
            as i32) < CHUNK_HEIGHT as i32 && 0 <= z && z < CHUNK_WIDTH as i32 {
            let index: usize = (y as usize) * CHUNK_AREA + (z as usize) * CHUNK_WIDTH + (x as usize);
            self.cells[index]
        } else {
            ChunkBlockState::Absent
        }
    }

    fn is_section_empty(&self, index: usize) -> (r: bool) {
        if self.cells.len() != CHUNK_VOLUME || index >= CHUNK_SECTIONS {
            return false;
        }
        let start: usize = index * CHUNK_SECTION_HEIGHT * CHUNK_AREA;
        let end: usize = start + CHUNK_SECTION_HEIGHT * CHUNK_AREA;
        let mut i: usize = start;
        while i < end
            invariant
                self.wf(),
                index < CHUNK_SECTIONS,
                start == index * CHUNK_SECTION_HEIGHT * CHUNK_AREA,
                end == start + CHUNK_SECTION_HEIGHT * CHUNK_AREA,
                start <= i <= end,
                end <= CHUNK_VOLUME,
                forall|j: int| start <= j < i ==> self.cells@[j] is Absent,
            decreases end - i,
        {
            match self.cells[i] {
                ChunkBlockState::Absent => {},
                ChunkBlockState::State(_) => {
                    return false;
                },
            }
            i += 1;
        }
        assert forall|x: int, y: int, z: int|
            0 <= x < CHUNK_WIDTH && 0 <= z < CHUNK_WIDTH && index as int * CHUNK_SECTION_HEIGHT <= y
                < (index as int + 1) * CHUNK_SECTION_HEIGHT implies self.spec_state(
            x,
            y,
            z,
        ) is Absent by {
            assert(start <= cell_index(x, y, z) < end);
        }
        true
    }
}

} // verus!
