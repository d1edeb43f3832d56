//! The chunk: a positioned container identifying which world-grid cell a
//! bake belongs to, owning one baked layer per configured render pass.

use vstd::prelude::*;

use crate::bake::spec_bake;
use crate::layer::BakedChunkLayer;
use crate::mapper::{StateFilter, VertexMapper};
use crate::provider::BlockStateProvider;
use crate::registry::BlockManager;

verus! {

/// One configured render pass: a name for the baked layer, the state filter
/// restricting which blocks the pass bakes, and the vertex mapper producing
/// the pass's output vertex representation.
pub struct LayerDefinition<F, M> {
    pub name: String,
    pub filter: F,
    pub mapper: M,
}

/// A chunk of the voxel world: its integer grid position and, after baking,
/// an ordered collection of named baked layers.
pub struct Chunk<T> {
    pub pos: (i32, i32),
    pub baked: Vec<(String, BakedChunkLayer<T>)>,
}

impl<T> Chunk<T> {
    /// Returns a chunk at grid position `pos` with no baked layers yet.
    pub fn new(pos: (i32, i32)) -> (r: Self)
        ensures
            r.pos == pos,
            r.baked@.len() == 0,
    {
        Chunk { pos, baked: Vec::new() }
    }

    /// Runs the mesh baker once per configured layer and stores the results
    /// keyed by layer name, replacing any previously stored layers wholesale.
    pub fn bake_chunk<V, M: VertexMapper<V, T>, F: StateFilter, P: BlockStateProvider>(
        &mut self,
        layers: &Vec<LayerDefinition<F, M>>,
        block_manager: &BlockManager<V>,
        provider: &P,
    )
        ensures
            final(self).pos == old(self).pos,
            final(self).baked@.len() == layers@.len(),
            forall|j: int|
                0 <= j < layers@.len() ==> {
                    &&& (#[trigger] final(self).baked@[j]).0@ == layers@[j].name@
                    &&& final(self).baked@[j].1@ == spec_bake(
                        *block_manager,
                        layers@[j].mapper,
                        layers@[j].filter,
                        *provider,
                        old(self).pos,
                    )
                },
    {
        let mut baked: Vec<(String, BakedChunkLayer<T>)> = Vec::new();
        let mut j: usize = 0;
        while j < layers.len()
            invariant
                0 <= j <= layers@.len(),
                baked@.len() == j,
                forall|k: int|
                    0 <= k < j ==> {
                        &&& (#[trigger] baked@[k]).0@ == layers@[k].name@
                        &&& baked@[k].1@ == spec_bake(
                            *block_manager,
                            layers@[k].mapper,
                            layers@[k].filter,
                            *provider,
                            self.pos,
                        )
                    },
                self == old(self),
            decreases layers@.len() - j,
        {
            let def = &layers[j];
            let layer = BakedChunkLayer::bake(
                block_manager,
                self.pos,
                &def.mapper,
                &def.filter,
                provider,
            );
            baked.push((def.name.clone(), layer));
            j += 1;
        }
        self.baked = baked;
    }
}

} // verus!
