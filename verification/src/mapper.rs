//! The caller-supplied pieces of a bake: the vertex mapper, a pure function
//! from a model-space vertex plus absolute world coordinates to the caller's
//! output vertex representation, and the state filter, a predicate
//! restricting a bake pass to a subset of block states.

use vstd::prelude::*;

use crate::state::ChunkBlockState;

verus! {

/// Transforms a model-space vertex plus absolute world coordinates into the
/// output vertex representation of one render layer. The transformation must
/// be a pure function of its arguments, which `spec_map` names.
pub trait VertexMapper<V, T>: Sized {
    /// The output vertex this mapper assigns to model vertex `v` at world
    /// coordinates `(x, y, z)`.
    spec fn spec_map(&self, v: V, x: int, y: int, z: int) -> T;

    /// Maps one model vertex at world coordinates `(x, y, z)`.
    fn map(&self, v: &V, x: i64, y: i64, z: i64) -> (r: T)
        ensures
            r == self.spec_map(*v, x as int, y as int, z as int),
    ;
}

/// A predicate over raw block states restricting a bake pass; cells whose
/// state fails the filter contribute no geometry and no culling influence.
pub trait StateFilter: Sized {
    /// Whether states like `state` take part in this bake pass.
    spec fn spec_filter(&self, state: ChunkBlockState) -> bool;

    /// Returns whether `state` takes part in this bake pass.
    fn filter(&self, state: ChunkBlockState) -> (r: bool)
        ensures
            r == self.spec_filter(state),
    ;
}

/// An output vertex pairing an untouched model vertex with the absolute
/// world coordinates of its cell.
#[derive(Clone, Copy, Debug, PartialEq, Eq, Structural)]
pub struct WorldVertex<V> {
    pub vertex: V,
    pub x: i64,
    pub y: i64,
    pub z: i64,
}

/// A mapper that tags each model vertex with its cell's absolute world
/// coordinates, leaving the vertex itself untouched.
#[derive(Clone, Copy, Debug)]
pub struct WorldTagMapper;

impl<V: Copy> VertexMapper<V, WorldVertex<V>> for WorldTagMapper {
    open spec fn spec_map(&self, v: V, x: int, y: int, z: int) -> WorldVertex<V> {
        WorldVertex { vertex: v, x: x as i64, y: y as i64, z: z as i64 }
    }

    fn map(&self, v: &V, x: i64, y: i64, z: i64) -> (r: WorldVertex<V>) {
        WorldVertex { vertex: *v, x, y, z }
    }
}

/// A filter that admits every block state.
#[derive(Clone, Copy, Debug)]
pub struct AcceptAllFilter;

impl StateFilter for AcceptAllFilter {
    open spec fn spec_filter(&self, state: ChunkBlockState) -> bool {
        true
    }

    fn filter(&self, state: ChunkBlockState) -> (r: bool) {
        true
    }
}

/// A filter that admits exactly one block-state key; used to bake a single
/// kind of block into a layer of its own.
#[derive(Clone, Copy, Debug)]
pub struct SingleKeyFilter {
    pub key: crate::state::BlockstateKey,
}

impl StateFilter for SingleKeyFilter {
    open spec fn spec_filter(&self, state: ChunkBlockState) -> bool {
        state == ChunkBlockState::State(self.key)
    }

    fn filter(&self, state: ChunkBlockState) -> (r: bool) {
        match state {
            ChunkBlockState::Absent => false,
            ChunkBlockState::State(k) => k == self.key,
        }
    }
}

} // verus!
