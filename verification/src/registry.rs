//! The block/model registry: maps a packed block-state key to that state's
//! attribute mapping and resolved block variant, and resolves named blocks
//! with attribute overrides to a concrete state key at registry-build time.

use vstd::prelude::*;

use crate::model::{predicate_matches, BlockVariant};
use crate::state::ChunkBlockState;

verus! {

/// One registry entry: the attribute mapping of a block-state key together
/// with its resolved rendering variant.
pub struct BlockEntry<V> {
    pub attributes: Vec<(String, String)>,
    pub variant: BlockVariant<V>,
}

impl<V> BlockEntry<V> {
    /// Well-formedness: the attribute mapping holds each key at most once,
    /// so a state cannot satisfy contradictory multipart predicates for one
    /// key at the same time.
    pub open spec fn wf(&self) -> bool {
        crate::model::distinct_attr_keys(self.attributes@)
    }
}

/// The registry. `block_states` is indexed by the packed block-state key;
/// `blocks` names each block type, indexed by the key's `block` component.
pub struct BlockManager<V> {
    pub block_states: Vec<BlockEntry<V>>,
    pub blocks: Vec<String>,
}

/// A registry-build-time failure: the named block, or a model variant
/// matching the requested attributes, is not registered.
#[derive(Clone, Copy, Debug, PartialEq, Eq, Structural)]
pub enum RegistryError {
    BlockNotFound,
    ModelNotFound,
}

/// The registry entry a block state resolves to: the entry at the state's
/// packed key, or nothing for an absent state or a key the registry lacks.
pub open spec fn resolved<V>(bm: BlockManager<V>, state: ChunkBlockState) -> Option<BlockEntry<V>> {
    match state.spec_packed_key() {
        None => None,
        Some(k) => if 0 <= k < bm.block_states@.len() {
            Some(bm.block_states@[k])
        } else {
            None
        },
    }
}

/// Looks a block state up in the registry. Fails only for an absent state or
/// a key outside the registry, which callers treat as sparse data, not as an
/// error.
pub fn get_block<'a, V>(block_manager: &'a BlockManager<V>, state: &ChunkBlockState) -> (r: Option<
    &'a BlockEntry<V>,
>)
    ensures
        match r {
            Some(e) => resolved(*block_manager, *state) == Some(*e),
            None => resolved(*block_manager, *state) is None,
        },
{
    match (*state).packed_key() {
        None => None,
        Some(k) => {
            if (k as usize) < block_manager.block_states.len() {
                Some(&block_manager.block_states[k as usize])
            } else {
                None
            }
        },
    }
}

/// Whether augment `a` of block `block` is registered and its attribute
/// mapping satisfies every `(key, value)` pair of `overrides`.
pub open spec fn augment_matches<V>(
    bm: BlockManager<V>,
    block: int,
    overrides: Seq<(String, String)>,
    a: int,
) -> bool {
    block * 65536 + a < bm.block_states@.len() && predicate_matches(
        overrides,
        bm.block_states@[block * 65536 + a].attributes@,
    )
}

/// Whether `i` is the first index at which the registry lists a block named
/// `name`.
pub open spec fn first_name_index<V>(bm: BlockManager<V>, name: Seq<char>, i: int) -> bool {
    &&& 0 <= i < bm.blocks@.len()
    &&& bm.blocks@[i]@ == name
    &&& forall|j: int| 0 <= j < i ==> bm.blocks@[j]@ != name
}

impl<V> BlockManager<V> {
    /// Well-formedness of the whole registry: every entry's attribute
    /// mapping is a map, with distinct keys.
    pub open spec fn wf(&self) -> bool {
        forall|j: int| 0 <= j < self.block_states@.len() ==> (#[trigger] self.block_states@[j]).wf()
    }

    /// Returns whether every registry entry is well formed; meant for the
    /// loader that fills a registry from outside data.
    pub fn check_well_formed(&self) -> (r: bool)
        ensures
            r == self.wf(),
    {
        let mut j: usize = 0;
        while j < self.block_states.len()
            invariant
                0 <= j <= self.block_states@.len(),
                forall|k: int| 0 <= k < j ==> (#[trigger] self.block_states@[k]).wf(),
            decreases self.block_states@.len() - j,
        {
            if !crate::model::check_distinct_keys(&self.block_states[j].attributes) {
                return false;
            }
            j += 1;
        }
        true
    }

    /// Returns the index of the first block registered under `name`, or
    /// `None` when no block carries that name.
    pub fn lookup_block_index(&self, name: &String) -> (r: Option<usize>)
        ensures
            match r {
                Some(i) => i < self.blocks@.len() && self.blocks@[i as int]@ == name@ && (forall|
                    j: int,
                |
                    0 <= j < i ==> self.blocks@[j]@ != name@),
                None => forall|j: int| 0 <= j < self.blocks@.len() ==> self.blocks@[j]@ != name@,
            },
    {
        let mut i: usize = 0;
        while i < self.blocks.len()
            invariant
                0 <= i <= self.blocks@.len(),
                forall|j: int| 0 <= j < i ==> self.blocks@[j]@ != name@,
            decreases self.blocks@.len() - i,
        {
            if self.blocks[i] == *name {
                return Some(i);
            }
            i += 1;
        }
        None
    }

    /// Resolves block `block` with the attribute `overrides` to the lowest
    /// augment index whose registered attribute mapping satisfies every
    /// override pair, returning that variant's full attribute mapping and the
    /// augment index; fails with `ModelNotFound` exactly when no registered
    /// augment of the block matches.
    pub fn build_model<'a>(&'a self, block: u16, overrides: &Vec<(String, String)>) -> (r: Result<
        (&'a Vec<(String, String)>, u16),
        RegistryError,
    >)
        ensures
            match r {
                Ok(ok) => {
                    &&& augment_matches(*self, block as int, overrides@, ok.1 as int)
                    &&& ok.0@ == self.block_states@[block as int * 65536 + ok.1 as int].attributes@
                    &&& forall|a: int|
                        0 <= a < ok.1 as int ==> !augment_matches(*self, block as int, overrides@, a)
                },
                Err(e) => e == RegistryError::ModelNotFound && forall|a: int|
                    0 <= a < 65536 ==> !augment_matches(*self, block as int, overrides@, a),
            },
    {
        let base: u64 = (block as u64) * 65536;
        let len: u64 = self.block_states.len() as u64;
        let mut aug: u64 = 0;
        while aug < 65536 && base + aug < len
            invariant
                base == block as int * 65536,
                len == self.block_states@.len(),
                0 <= aug <= 65536,
                forall|a: int| 0 <= a < aug ==> !augment_matches(*self, block as int, overrides@, a),
            decreases 65536 - aug,
        {
            let idx: usize = (base + aug) as usize;
            if crate::model::eval_predicate(overrides, &self.block_states[idx].attributes) {
                return Ok((&self.block_states[idx].attributes, aug as u16));
            }
            aug += 1;
        }
        assert forall|a: int|
            0 <= a < 65536 implies !augment_matches(*self, block as int, overrides@, a) by {
            if a >= aug as int {
                assert(block as int * 65536 + a >= self.block_states@.len());
            }
        }
        Err(RegistryError::ModelNotFound)
    }

    /// Resolves a block by name together with attribute overrides to a full
    /// block-state key, the registry-build step behind rendering one named
    /// block. Succeeds iff the name is registered, at the first index
    /// carrying it, and some augment of that block matches the overrides, at
    /// the lowest such augment. Fails with `BlockNotFound` exactly when no
    /// block carries the name, and with `ModelNotFound` exactly when the
    /// first block of that name either lies beyond the key space or has no
    /// matching augment.
    pub fn resolve_block_model<'a>(&'a self, name: &String, overrides: &Vec<(String, String)>) -> (r:
        Result<(&'a Vec<(String, String)>, crate::state::BlockstateKey), RegistryError>)
        ensures
            match r {
                Ok(ok) => {
                    &&& first_name_index(*self, name@, ok.1.block as int)
                    &&& augment_matches(*self, ok.1.block as int, overrides@, ok.1.augment as int)
                    &&& forall|a: int|
                        0 <= a < ok.1.augment as int ==> !augment_matches(
                            *self,
                            ok.1.block as int,
                            overrides@,
                            a,
                        )
                    &&& ok.0@ == self.block_states@[ok.1.spec_pack()].attributes@
                },
                Err(RegistryError::BlockNotFound) => forall|j: int|
                    0 <= j < self.blocks@.len() ==> self.blocks@[j]@ != name@,
                Err(RegistryError::ModelNotFound) => exists|i: int|
                    #[trigger] first_name_index(*self, name@, i) && (i >= 65536 || forall|a: int|
                        0 <= a < 65536 ==> !augment_matches(*self, i, overrides@, a)),
            },
    {
        let index = match self.lookup_block_index(name) {
            Some(i) => i,
            None => {
                return Err(RegistryError::BlockNotFound);
            },
        };
        assert(first_name_index(*self, name@, index as int));
        if index >= 65536 {
            return Err(RegistryError::ModelNotFound);
        }
        let block: u16 = index as u16;
        match self.build_model(block, overrides) {
            Ok((attributes, augment)) => Ok(
                (attributes, crate::state::BlockstateKey { block, augment }),
            ),
            Err(_) => Err(RegistryError::ModelNotFound),
        }
    }
}

} // verus!
