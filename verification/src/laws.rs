//! Proved laws of the baker: what culling, sparse data, multipart matching
//! and merging guarantee about the buckets of a baked layer.

use vstd::prelude::*;

use crate::bake::{
    bake_dir_upto, bake_other_upto, case_matches, cell_dir_verts, cell_other_verts, cell_x,
    cell_y, cell_z, concat_upto, group_mapped, mapped_verts, model_other_mapped,
    multipart_mapped, spec_bake, world_x, world_z,
};
use crate::layer::BakedChunkLayer;
use crate::mapper::{StateFilter, VertexMapper};
use crate::model::{
    opt_verts, BlockStateDefinitionType, CubeOrComplexMesh, Direction, ModelFaces, MultipartCase,
};
use crate::provider::{cell_index, in_volume, BlockStateProvider};
use crate::registry::{resolved, BlockEntry, BlockManager};
use crate::state::{BlockstateKey, ChunkBlockState, CHUNK_VOLUME, CHUNK_WIDTH};

verus! {

/// Two pointwise-equal per-index contributions concatenate to the same
/// sequence.
pub proof fn lemma_concat_upto_congruence<T>(f: spec_fn(int) -> Seq<T>, g: spec_fn(int) -> Seq<T>, n: int)
    requires
        forall|j: int| 0 <= j < n ==> #[trigger] f(j) == g(j),
    ensures
        concat_upto(f, n) == concat_upto(g, n),
    decreases n,
{
    if n > 0 {
        lemma_concat_upto_congruence(f, g, n - 1);
    }
}

/// The coordinates decoded from any in-range flat cell index lie inside the
/// chunk volume.
pub proof fn lemma_cell_coords_in_volume(i: int)
    requires
        0 <= i < CHUNK_VOLUME,
    ensures
        in_volume(cell_x(i), cell_y(i), cell_z(i)),
{
}

/// Decoding a flat cell index and re-encoding the coordinates yields the
/// same index: the traversal visits every cell exactly once.
pub proof fn lemma_cell_encode(i: int)
    requires
        0 <= i < CHUNK_VOLUME,
    ensures
        cell_index(cell_x(i), cell_y(i), cell_z(i)) == i,
{
    vstd::arithmetic::div_mod::lemma_fundamental_div_mod(i, 256);
    vstd::arithmetic::div_mod::lemma_fundamental_div_mod(i % 256, 16);
    vstd::arithmetic::div_mod::lemma_mod_mod(i, 16, 16);
}

/// Encoding in-volume coordinates yields an in-range flat index that decodes
/// back to the same coordinates.
pub proof fn lemma_cell_index_decode(x: int, y: int, z: int)
    requires
        in_volume(x, y, z),
    ensures
        0 <= cell_index(x, y, z) < CHUNK_VOLUME,
        cell_x(cell_index(x, y, z)) == x,
        cell_y(cell_index(x, y, z)) == y,
        cell_z(cell_index(x, y, z)) == z,
{
    let i = cell_index(x, y, z);
    vstd::arithmetic::div_mod::lemma_fundamental_div_mod_converse(i, 16, y * 16 + z, x);
    vstd::arithmetic::div_mod::lemma_fundamental_div_mod_converse(i, 256, y, z * 16 + x);
    vstd::arithmetic::div_mod::lemma_fundamental_div_mod_converse(z * 16 + x, 16, z, x);
}

/// Appending one rule to a multipart definition adds exactly that rule's
/// model when the attributes satisfy its predicate, and nothing otherwise:
/// multipart geometry includes only rules whose predicate matches.
pub proof fn lemma_multipart_rule_inclusion<V, T, M: VertexMapper<V, T>>(
    m: M,
    cases: Seq<MultipartCase<V>>,
    attrs: Seq<(String, String)>,
    c: MultipartCase<V>,
    x: int,
    y: int,
    z: int,
)
    ensures
        multipart_mapped::<V, T, M>(m, cases.push(c), attrs, x, y, z) == multipart_mapped::<
            V,
            T,
            M,
        >(m, cases, attrs, x, y, z) + (if case_matches(c, attrs) {
            model_other_mapped::<V, T, M>(m, c.model, x, y, z)
        } else {
            Seq::<T>::empty()
        }),
{
    let pushed = cases.push(c);
    let f = |j: int|
        if case_matches(pushed[j], attrs) {
            model_other_mapped::<V, T, M>(m, pushed[j].model, x, y, z)
        } else {
            Seq::<T>::empty()
        };
    let g = |j: int|
        if case_matches(cases[j], attrs) {
            model_other_mapped::<V, T, M>(m, cases[j].model, x, y, z)
        } else {
            Seq::<T>::empty()
        };
    assert(forall|j: int| 0 <= j < cases.len() ==> #[trigger] f(j) == g(j));
    lemma_concat_upto_congruence(f, g, cases.len() as int);
    assert(pushed[cases.len() as int] == c);
}

/// A directional bucket over `n` cells where every cell's contribution is
/// empty is itself empty.
pub proof fn lemma_bake_dir_all_empty<
    V,
    T,
    M: VertexMapper<V, T>,
    F: StateFilter,
    P: BlockStateProvider,
>(bm: BlockManager<V>, m: M, f: F, p: P, pos: (i32, i32), d: Direction, n: int)
    requires
        forall|j: int|
            0 <= j < n ==> #[trigger] cell_dir_verts::<V, T, M, F, P>(bm, m, f, p, pos, j, d)
                == Seq::<T>::empty(),
    ensures
        bake_dir_upto(bm, m, f, p, pos, d, n) == Seq::<T>::empty(),
    decreases n,
{
    if n > 0 {
        lemma_bake_dir_all_empty(bm, m, f, p, pos, d, n - 1);
        assert(Seq::<T>::empty() + Seq::<T>::empty() =~= Seq::<T>::empty());
    }
}

/// A directional bucket over `n` cells where every cell's contribution is
/// empty except cell `i0`'s equals exactly that cell's contribution.
pub proof fn lemma_bake_dir_single<
    V,
    T,
    M: VertexMapper<V, T>,
    F: StateFilter,
    P: BlockStateProvider,
>(bm: BlockManager<V>, m: M, f: F, p: P, pos: (i32, i32), d: Direction, n: int, i0: int)
    requires
        0 <= i0 < n,
        forall|j: int|
            0 <= j < n && j != i0 ==> #[trigger] cell_dir_verts::<V, T, M, F, P>(
                bm,
                m,
                f,
                p,
                pos,
                j,
                d,
            ) == Seq::<T>::empty(),
    ensures
        bake_dir_upto(bm, m, f, p, pos, d, n) == cell_dir_verts::<V, T, M, F, P>(
            bm,
            m,
            f,
            p,
            pos,
            i0,
            d,
        ),
    decreases n,
{
    let c = cell_dir_verts::<V, T, M, F, P>(bm, m, f, p, pos, i0, d);
    if i0 == n - 1 {
        lemma_bake_dir_all_empty(bm, m, f, p, pos, d, n - 1);
        assert(Seq::<T>::empty() + c =~= c);
    } else {
        lemma_bake_dir_single(bm, m, f, p, pos, d, n - 1, i0);
        assert(c + Seq::<T>::empty() =~= c);
    }
}

/// A directional bucket over `n` cells is at least as long as any one
/// cell's contribution to it.
pub proof fn lemma_bake_dir_len_at_least<
    V,
    T,
    M: VertexMapper<V, T>,
    F: StateFilter,
    P: BlockStateProvider,
>(bm: BlockManager<V>, m: M, f: F, p: P, pos: (i32, i32), d: Direction, n: int, i: int)
    requires
        0 <= i < n,
    ensures
        bake_dir_upto(bm, m, f, p, pos, d, n).len() >= cell_dir_verts::<V, T, M, F, P>(
            bm,
            m,
            f,
            p,
            pos,
            i,
            d,
        ).len(),
    decreases n,
{
    if i < n - 1 {
        lemma_bake_dir_len_at_least(bm, m, f, p, pos, d, n - 1, i);
    }
}

/// The provider answers the single state `k` for every coordinate inside the
/// chunk volume.
pub open spec fn volume_filled<P: BlockStateProvider>(p: P, k: BlockstateKey) -> bool {
    forall|x: int, y: int, z: int|
        in_volume(x, y, z) ==> #[trigger] p.spec_state(x, y, z) == ChunkBlockState::State(k)
}

/// The provider fills the entire chunk volume with the single state `k` and
/// answers `Absent` for every coordinate outside it.
pub open spec fn uniform_fill<P: BlockStateProvider>(p: P, k: BlockstateKey) -> bool {
    &&& volume_filled(p, k)
    &&& forall|x: int, y: int, z: int|
        !in_volume(x, y, z) ==> #[trigger] p.spec_state(x, y, z) == ChunkBlockState::Absent
}

/// The provider holds state `k` at exactly `(x0, y0, z0)` and `Absent`
/// everywhere else.
pub open spec fn single_fill<P: BlockStateProvider>(
    p: P,
    x0: int,
    y0: int,
    z0: int,
    k: BlockstateKey,
) -> bool {
    &&& in_volume(x0, y0, z0)
    &&& p.spec_state(x0, y0, z0) == ChunkBlockState::State(k)
    &&& forall|x: int, y: int, z: int|
        !(x == x0 && y == y0 && z == z0) ==> #[trigger] p.spec_state(x, y, z)
            == ChunkBlockState::Absent
}

/// A chunk-array provider whose every cell holds state `k` fills the volume
/// uniformly: the law hypotheses about full volumes describe it.
pub proof fn lemma_array_provider_uniform_fill(p: crate::provider::ChunkArrayProvider, k: BlockstateKey)
    requires
        p.wf(),
        forall|j: int| 0 <= j < CHUNK_VOLUME ==> p.cells@[j] == ChunkBlockState::State(k),
    ensures
        uniform_fill(p, k),
{
    assert forall|x: int, y: int, z: int| in_volume(x, y, z) implies #[trigger] p.spec_state(
        x,
        y,
        z,
    ) == ChunkBlockState::State(k) by {
        lemma_cell_index_decode(x, y, z);
    }
}

/// A chunk-array provider holding state `k` at exactly one cell and `Absent`
/// everywhere else realizes the single-block law hypotheses.
pub proof fn lemma_array_provider_single_fill(
    p: crate::provider::ChunkArrayProvider,
    x0: int,
    y0: int,
    z0: int,
    k: BlockstateKey,
)
    requires
        p.wf(),
        in_volume(x0, y0, z0),
        p.cells@[cell_index(x0, y0, z0)] == ChunkBlockState::State(k),
        forall|j: int|
            0 <= j < CHUNK_VOLUME && j != cell_index(x0, y0, z0) ==> p.cells@[j]
                == ChunkBlockState::Absent,
    ensures
        single_fill(p, x0, y0, z0, k),
{
    lemma_cell_index_decode(x0, y0, z0);
    assert forall|x: int, y: int, z: int| !(x == x0 && y == y0 && z == z0) implies #[trigger] p
        .spec_state(x, y, z) == ChunkBlockState::Absent by {
        if in_volume(x, y, z) {
            lemma_cell_index_decode(x, y, z);
        }
    }
}

/// The registry entry resolves to a single cube model, `model`.
pub open spec fn entry_is_cube<V>(e: BlockEntry<V>, model: ModelFaces<V>) -> bool {
    e.variant.kind matches BlockStateDefinitionType::Variant(mesh) && mesh.shape
        matches CubeOrComplexMesh::Cube(c) && c == model
}

/// In a volume filled entirely with one opaque cube state, a face whose
/// neighbor lies inside the volume is mutually occluded and contributes
/// nothing, whatever the state filter admits.
pub proof fn lemma_full_fill_interior_face_culled<
    V,
    T,
    M: VertexMapper<V, T>,
    F: StateFilter,
    P: BlockStateProvider,
>(
    bm: BlockManager<V>,
    m: M,
    f: F,
    p: P,
    pos: (i32, i32),
    k: BlockstateKey,
    e: BlockEntry<V>,
    model: ModelFaces<V>,
    i: int,
    d: Direction,
)
    requires
        uniform_fill(p, k),
        resolved(bm, ChunkBlockState::State(k)) == Some(e),
        entry_is_cube(e, model),
        !e.variant.transparent_or_complex,
        0 <= i < CHUNK_VOLUME,
        in_volume(cell_x(i) + d.dx(), cell_y(i) + d.dy(), cell_z(i) + d.dz()),
    ensures
        cell_dir_verts::<V, T, M, F, P>(bm, m, f, p, pos, i, d) == Seq::<T>::empty(),
{
    lemma_cell_coords_in_volume(i);
}

/// In a volume filled entirely with one cube state, a face whose neighbor
/// lies outside the volume meets an absent, hence transparent, cell: the
/// face is emitted in full.
pub proof fn lemma_full_fill_boundary_face_emitted<
    V,
    T,
    M: VertexMapper<V, T>,
    F: StateFilter,
    P: BlockStateProvider,
>(
    bm: BlockManager<V>,
    m: M,
    f: F,
    p: P,
    pos: (i32, i32),
    k: BlockstateKey,
    e: BlockEntry<V>,
    model: ModelFaces<V>,
    i: int,
    d: Direction,
)
    requires
        uniform_fill(p, k),
        resolved(bm, ChunkBlockState::State(k)) == Some(e),
        entry_is_cube(e, model),
        f.spec_filter(ChunkBlockState::State(k)),
        0 <= i < CHUNK_VOLUME,
        !in_volume(cell_x(i) + d.dx(), cell_y(i) + d.dy(), cell_z(i) + d.dz()),
    ensures
        cell_dir_verts::<V, T, M, F, P>(bm, m, f, p, pos, i, d) == mapped_verts::<V, T, M>(
            m,
            opt_verts(model.face(d)),
            world_x(pos, i),
            cell_y(i),
            world_z(pos, i),
        ),
{
    lemma_cell_coords_in_volume(i);
}

/// In a volume filled entirely with one opaque cube state whose model
/// defines a non-empty face toward `d`, the baked bucket for `d` is
/// non-empty: the chunk's outer boundary renders against the unresolvable
/// cells beyond it.
pub proof fn lemma_full_fill_boundary_bucket_nonempty<
    V,
    T,
    M: VertexMapper<V, T>,
    F: StateFilter,
    P: BlockStateProvider,
>(
    bm: BlockManager<V>,
    m: M,
    f: F,
    p: P,
    pos: (i32, i32),
    k: BlockstateKey,
    e: BlockEntry<V>,
    model: ModelFaces<V>,
    d: Direction,
)
    requires
        uniform_fill(p, k),
        resolved(bm, ChunkBlockState::State(k)) == Some(e),
        entry_is_cube(e, model),
        !e.variant.transparent_or_complex,
        f.spec_filter(ChunkBlockState::State(k)),
        opt_verts(model.face(d)).len() > 0,
    ensures
        spec_bake::<V, T, M, F, P>(bm, m, f, p, pos).bucket(d).len() > 0,
{
    let i0: int = match d {
        Direction::North => 0,
        Direction::East => 15,
        Direction::South => 240,
        Direction::West => 0,
        Direction::Up => 65280,
        Direction::Down => 0,
    };
    assert(!in_volume(cell_x(i0) + d.dx(), cell_y(i0) + d.dy(), cell_z(i0) + d.dz()));
    lemma_full_fill_boundary_face_emitted::<V, T, M, F, P>(bm, m, f, p, pos, k, e, model, i0, d);
    lemma_bake_dir_len_at_least::<V, T, M, F, P>(bm, m, f, p, pos, d, CHUNK_VOLUME as int, i0);
}

/// Whether cell `i`'s neighbor toward `d` lies outside the chunk volume, so
/// that `i` is an outer-boundary cell for direction `d`.
pub open spec fn is_boundary(i: int, d: Direction) -> bool {
    !in_volume(cell_x(i) + d.dx(), cell_y(i) + d.dy(), cell_z(i) + d.dz())
}

/// The number of cells among the first `n` that are outer-boundary cells for
/// direction `d`.
pub open spec fn boundary_count(d: Direction, n: int) -> int
    decreases n,
{
    if n <= 0 {
        0
    } else {
        boundary_count(d, n - 1) + if is_boundary(n - 1, d) {
            1int
        } else {
            0int
        }
    }
}

/// In a volume filled with one opaque cube state, the directional bucket
/// over the first `n` cells holds exactly one full face list per boundary
/// cell: interior faces are mutually occluded, boundary faces all render.
pub proof fn lemma_full_fill_bucket_len<
    V,
    T,
    M: VertexMapper<V, T>,
    F: StateFilter,
    P: BlockStateProvider,
>(
    bm: BlockManager<V>,
    m: M,
    f: F,
    p: P,
    pos: (i32, i32),
    k: BlockstateKey,
    e: BlockEntry<V>,
    model: ModelFaces<V>,
    d: Direction,
    n: int,
)
    requires
        uniform_fill(p, k),
        resolved(bm, ChunkBlockState::State(k)) == Some(e),
        entry_is_cube(e, model),
        !e.variant.transparent_or_complex,
        f.spec_filter(ChunkBlockState::State(k)),
        0 <= n <= CHUNK_VOLUME,
    ensures
        bake_dir_upto::<V, T, M, F, P>(bm, m, f, p, pos, d, n).len() == boundary_count(d, n)
            * opt_verts(model.face(d)).len(),
    decreases n,
{
    let len = opt_verts(model.face(d)).len() as int;
    if n > 0 {
        lemma_full_fill_bucket_len::<V, T, M, F, P>(bm, m, f, p, pos, k, e, model, d, n - 1);
        if is_boundary(n - 1, d) {
            lemma_full_fill_boundary_face_emitted::<V, T, M, F, P>(
                bm,
                m,
                f,
                p,
                pos,
                k,
                e,
                model,
                n - 1,
                d,
            );
            assert((boundary_count(d, n - 1) + 1) * len == boundary_count(d, n - 1) * len + len)
                by (nonlinear_arith);
        } else {
            lemma_full_fill_interior_face_culled::<V, T, M, F, P>(
                bm,
                m,
                f,
                p,
                pos,
                k,
                e,
                model,
                n - 1,
                d,
            );
        }
    } else {
        assert(n * len == 0) by (nonlinear_arith)
            requires
                n == 0,
        ;
    }
}

/// The boundary cells for the upward direction among the first `n` are
/// those of the top plane, the indexes from `65280` on.
pub proof fn lemma_boundary_count_up(n: int)
    requires
        0 <= n <= CHUNK_VOLUME,
    ensures
        boundary_count(Direction::Up, n) == if n <= 65280 {
            0int
        } else {
            n - 65280
        },
    decreases n,
{
    if n > 0 {
        lemma_boundary_count_up(n - 1);
        lemma_cell_coords_in_volume(n - 1);
        vstd::arithmetic::div_mod::lemma_fundamental_div_mod(n - 1, 256);
        if n - 1 >= 65280 {
            vstd::arithmetic::div_mod::lemma_fundamental_div_mod_converse(
                n - 1,
                256,
                255,
                n - 1 - 65280,
            );
        }
    }
}

/// The boundary cells for the downward direction among the first `n` are
/// those of the bottom plane, the first `256` indexes.
pub proof fn lemma_boundary_count_down(n: int)
    requires
        0 <= n <= CHUNK_VOLUME,
    ensures
        boundary_count(Direction::Down, n) == if n <= 256 {
            n
        } else {
            256int
        },
    decreases n,
{
    if n > 0 {
        lemma_boundary_count_down(n - 1);
        lemma_cell_coords_in_volume(n - 1);
        vstd::arithmetic::div_mod::lemma_fundamental_div_mod(n - 1, 256);
        if n - 1 < 256 {
            vstd::arithmetic::div_mod::lemma_fundamental_div_mod_converse(n - 1, 256, 0, n - 1);
        }
    }
}

/// The boundary cells for east among the first `n` are those with `x = 15`,
/// one per run of sixteen indexes.
pub proof fn lemma_boundary_count_east(n: int)
    requires
        0 <= n <= CHUNK_VOLUME,
    ensures
        boundary_count(Direction::East, n) == n / 16,
    decreases n,
{
    if n > 0 {
        lemma_boundary_count_east(n - 1);
        lemma_cell_coords_in_volume(n - 1);
        vstd::arithmetic::div_mod::lemma_fundamental_div_mod(n - 1, 16);
        let q = (n - 1) / 16;
        let r = (n - 1) % 16;
        if r < 15 {
            vstd::arithmetic::div_mod::lemma_fundamental_div_mod_converse(n, 16, q, r + 1);
        } else {
            vstd::arithmetic::div_mod::lemma_fundamental_div_mod_converse(n, 16, q + 1, 0);
        }
    }
}

/// The boundary cells for west among the first `n` are those with `x = 0`,
/// one at the start of each run of sixteen indexes.
pub proof fn lemma_boundary_count_west(n: int)
    requires
        0 <= n <= CHUNK_VOLUME,
    ensures
        boundary_count(Direction::West, n) == (n + 15) / 16,
    decreases n,
{
    if n > 0 {
        lemma_boundary_count_west(n - 1);
        lemma_cell_coords_in_volume(n - 1);
        vstd::arithmetic::div_mod::lemma_fundamental_div_mod(n - 1, 16);
        let q = (n - 1) / 16;
        let r = (n - 1) % 16;
        if r == 0 {
            vstd::arithmetic::div_mod::lemma_fundamental_div_mod_converse(n + 14, 16, q, 15);
            vstd::arithmetic::div_mod::lemma_fundamental_div_mod_converse(n + 15, 16, q + 1, 0);
        } else {
            vstd::arithmetic::div_mod::lemma_fundamental_div_mod_converse(n + 14, 16, q + 1, r - 1);
            vstd::arithmetic::div_mod::lemma_fundamental_div_mod_converse(n + 15, 16, q + 1, r);
        }
    }
}

/// The boundary cells for north among the first `n` are those with `z = 0`:
/// the first sixteen of each run of `256` indexes.
pub proof fn lemma_boundary_count_north(n: int)
    requires
        0 <= n <= CHUNK_VOLUME,
    ensures
        boundary_count(Direction::North, n) == (n / 256) * 16 + (if n % 256 < 16 {
            n % 256
        } else {
            16int
        }),
    decreases n,
{
    if n > 0 {
        lemma_boundary_count_north(n - 1);
        lemma_cell_coords_in_volume(n - 1);
        vstd::arithmetic::div_mod::lemma_fundamental_div_mod(n - 1, 256);
        let q = (n - 1) / 256;
        let r = (n - 1) % 256;
        vstd::arithmetic::div_mod::lemma_fundamental_div_mod(r, 16);
        if r < 16 {
            vstd::arithmetic::div_mod::lemma_fundamental_div_mod_converse(r, 16, 0, r);
        }
        if r < 255 {
            vstd::arithmetic::div_mod::lemma_fundamental_div_mod_converse(n, 256, q, r + 1);
        } else {
            vstd::arithmetic::div_mod::lemma_fundamental_div_mod_converse(n, 256, q + 1, 0);
        }
    }
}

/// The boundary cells for south among the first `n` are those with `z = 15`:
/// the last sixteen of each run of `256` indexes.
pub proof fn lemma_boundary_count_south(n: int)
    requires
        0 <= n <= CHUNK_VOLUME,
    ensures
        boundary_count(Direction::South, n) == (n / 256) * 16 + (if n % 256 > 240 {
            n % 256 - 240
        } else {
            0int
        }),
    decreases n,
{
    if n > 0 {
        lemma_boundary_count_south(n - 1);
        lemma_cell_coords_in_volume(n - 1);
        vstd::arithmetic::div_mod::lemma_fundamental_div_mod(n - 1, 256);
        let q = (n - 1) / 256;
        let r = (n - 1) % 256;
        vstd::arithmetic::div_mod::lemma_fundamental_div_mod(r, 16);
        if r >= 240 {
            vstd::arithmetic::div_mod::lemma_fundamental_div_mod_converse(r, 16, 15, r - 240);
        }
        if r < 255 {
            vstd::arithmetic::div_mod::lemma_fundamental_div_mod_converse(n, 256, q, r + 1);
        } else {
            vstd::arithmetic::div_mod::lemma_fundamental_div_mod_converse(n, 256, q + 1, 0);
        }
    }
}

/// In a volume filled with one opaque cube state, each directional bucket
/// holds exactly one full face list per outer-boundary cell: `256` cells for
/// up and down (the 16×16 top and bottom planes), `4096` for each side (a
/// 16×256 wall).
pub proof fn lemma_full_fill_bucket_exact_count<
    V,
    T,
    M: VertexMapper<V, T>,
    F: StateFilter,
    P: BlockStateProvider,
>(
    bm: BlockManager<V>,
    m: M,
    f: F,
    p: P,
    pos: (i32, i32),
    k: BlockstateKey,
    e: BlockEntry<V>,
    model: ModelFaces<V>,
    d: Direction,
)
    requires
        uniform_fill(p, k),
        resolved(bm, ChunkBlockState::State(k)) == Some(e),
        entry_is_cube(e, model),
        !e.variant.transparent_or_complex,
        f.spec_filter(ChunkBlockState::State(k)),
    ensures
        spec_bake::<V, T, M, F, P>(bm, m, f, p, pos).bucket(d).len() == boundary_count(
            d,
            CHUNK_VOLUME as int,
        ) * opt_verts(model.face(d)).len(),
        boundary_count(d, CHUNK_VOLUME as int) == match d {
            Direction::Up | Direction::Down => 256int,
            _ => 4096int,
        },
{
    lemma_full_fill_bucket_len::<V, T, M, F, P>(
        bm,
        m,
        f,
        p,
        pos,
        k,
        e,
        model,
        d,
        CHUNK_VOLUME as int,
    );
    match d {
        Direction::North => lemma_boundary_count_north(CHUNK_VOLUME as int),
        Direction::East => lemma_boundary_count_east(CHUNK_VOLUME as int),
        Direction::South => lemma_boundary_count_south(CHUNK_VOLUME as int),
        Direction::West => lemma_boundary_count_west(CHUNK_VOLUME as int),
        Direction::Up => lemma_boundary_count_up(CHUNK_VOLUME as int),
        Direction::Down => lemma_boundary_count_down(CHUNK_VOLUME as int),
    }
}

/// A single cube block surrounded by absent cells has every face rendered:
/// each directional bucket holds exactly that block's mapped face vertices.
pub proof fn lemma_single_block_all_faces_emitted<
    V,
    T,
    M: VertexMapper<V, T>,
    F: StateFilter,
    P: BlockStateProvider,
>(
    bm: BlockManager<V>,
    m: M,
    f: F,
    p: P,
    pos: (i32, i32),
    k: BlockstateKey,
    e: BlockEntry<V>,
    model: ModelFaces<V>,
    x0: int,
    y0: int,
    z0: int,
    d: Direction,
)
    requires
        single_fill(p, x0, y0, z0, k),
        resolved(bm, ChunkBlockState::State(k)) == Some(e),
        entry_is_cube(e, model),
        f.spec_filter(ChunkBlockState::State(k)),
    ensures
        spec_bake::<V, T, M, F, P>(bm, m, f, p, pos).bucket(d) == mapped_verts::<V, T, M>(
            m,
            opt_verts(model.face(d)),
            pos.0 * CHUNK_WIDTH as int + x0,
            y0,
            pos.1 * CHUNK_WIDTH as int + z0,
        ),
{
    let i0 = cell_index(x0, y0, z0);
    lemma_cell_index_decode(x0, y0, z0);
    assert forall|j: int| 0 <= j < CHUNK_VOLUME && j != i0 implies #[trigger] cell_dir_verts::<
        V,
        T,
        M,
        F,
        P,
    >(bm, m, f, p, pos, j, d) == Seq::<T>::empty() by {
        lemma_cell_coords_in_volume(j);
        lemma_cell_encode(j);
        assert(!(cell_x(j) == x0 && cell_y(j) == y0 && cell_z(j) == z0));
        assert(p.spec_state(cell_x(j), cell_y(j), cell_z(j)) == ChunkBlockState::Absent);
    }
    assert(d.dx() != 0 || d.dy() != 0 || d.dz() != 0);
    assert(p.spec_state(x0 + d.dx(), y0 + d.dy(), z0 + d.dz()) == ChunkBlockState::Absent);
    lemma_bake_dir_single::<V, T, M, F, P>(bm, m, f, p, pos, d, CHUNK_VOLUME as int, i0);
}

/// What the registry entry `e` offers as a cullable cube face toward `d`:
/// nothing unless the entry is a single cube model.
pub open spec fn entry_cube_face<V>(e: BlockEntry<V>, d: Direction) -> Option<Vec<V>> {
    match e.variant.kind {
        BlockStateDefinitionType::Variant(mesh) => match mesh.shape {
            CubeOrComplexMesh::Cube(c) => c.face(d),
            CubeOrComplexMesh::Complex(_) => None,
        },
        BlockStateDefinitionType::Multipart(_) => None,
    }
}

/// A cell whose model has no face list toward `d` contributes nothing to
/// that bucket, regardless of neighbor transparency.
pub proof fn lemma_face_none_no_verts<
    V,
    T,
    M: VertexMapper<V, T>,
    F: StateFilter,
    P: BlockStateProvider,
>(bm: BlockManager<V>, m: M, f: F, p: P, pos: (i32, i32), i: int, d: Direction)
    requires
        match resolved(bm, p.spec_state(cell_x(i), cell_y(i), cell_z(i))) {
            Some(e) => entry_cube_face(e, d) is None,
            None => true,
        },
    ensures
        cell_dir_verts::<V, T, M, F, P>(bm, m, f, p, pos, i, d) == Seq::<T>::empty(),
{
    assert(mapped_verts::<V, T, M>(
        m,
        Seq::<V>::empty(),
        world_x(pos, i),
        cell_y(i),
        world_z(pos, i),
    ) =~= Seq::<T>::empty());
}

/// When no registry entry defines a cube face toward `d`, the whole baked
/// bucket for `d` is empty.
pub proof fn lemma_face_none_empty_bucket<
    V,
    T,
    M: VertexMapper<V, T>,
    F: StateFilter,
    P: BlockStateProvider,
>(bm: BlockManager<V>, m: M, f: F, p: P, pos: (i32, i32), d: Direction)
    requires
        forall|j: int|
            0 <= j < bm.block_states@.len() ==> entry_cube_face(
                #[trigger] bm.block_states@[j],
                d,
            ) is None,
    ensures
        spec_bake::<V, T, M, F, P>(bm, m, f, p, pos).bucket(d) == Seq::<T>::empty(),
{
    assert forall|i: int| 0 <= i < CHUNK_VOLUME implies #[trigger] cell_dir_verts::<V, T, M, F, P>(
        bm,
        m,
        f,
        p,
        pos,
        i,
        d,
    ) == Seq::<T>::empty() by {
        let state = p.spec_state(cell_x(i), cell_y(i), cell_z(i));
        match state {
            ChunkBlockState::Absent => {},
            ChunkBlockState::State(key) => {
                if key.spec_pack() < bm.block_states@.len() {
                    assert(entry_cube_face(bm.block_states@[key.spec_pack()], d) is None);
                }
            },
        }
        lemma_face_none_no_verts::<V, T, M, F, P>(bm, m, f, p, pos, i, d);
    }
    lemma_bake_dir_all_empty::<V, T, M, F, P>(bm, m, f, p, pos, d, CHUNK_VOLUME as int);
}

/// The number of vertices one face group holds over all six faces.
pub open spec fn group_vert_count<V>(g: ModelFaces<V>) -> int {
    opt_verts(g.north).len() + opt_verts(g.east).len() + opt_verts(g.south).len() + opt_verts(
        g.west,
    ).len() + opt_verts(g.up).len() + opt_verts(g.down).len() as int
}

/// The number of vertices the first `n` groups of a complex mesh hold.
pub open spec fn complex_vert_count<V>(gs: Seq<ModelFaces<V>>, n: int) -> int
    decreases n,
{
    if n <= 0 {
        0
    } else {
        complex_vert_count(gs, n - 1) + group_vert_count(gs[n - 1])
    }
}

/// The number of vertices one multipart rule's model contributes when its
/// predicate matches.
pub open spec fn model_vert_count<V>(mesh: crate::model::BlockModelMesh<V>) -> int {
    match mesh.shape {
        CubeOrComplexMesh::Cube(c) => group_vert_count(c),
        CubeOrComplexMesh::Complex(gs) => complex_vert_count(gs@, gs@.len() as int),
    }
}

/// The total vertex count the first `n` rules of a multipart definition
/// contribute under the attribute mapping `attrs`: the counts of exactly the
/// matching rules.
pub open spec fn multipart_total<V>(
    cases: Seq<MultipartCase<V>>,
    attrs: Seq<(String, String)>,
    n: int,
) -> int
    decreases n,
{
    if n <= 0 {
        0
    } else {
        multipart_total(cases, attrs, n - 1) + if case_matches(cases[n - 1], attrs) {
            model_vert_count(cases[n - 1].model)
        } else {
            0
        }
    }
}

/// Mapping preserves a face group's vertex count.
pub proof fn lemma_group_mapped_len<V, T, M: VertexMapper<V, T>>(
    m: M,
    g: ModelFaces<V>,
    x: int,
    y: int,
    z: int,
)
    ensures
        group_mapped::<V, T, M>(m, g, x, y, z).len() == group_vert_count(g),
{
}

/// Mapping preserves a complex mesh prefix's vertex count.
pub proof fn lemma_complex_mapped_len<V, T, M: VertexMapper<V, T>>(
    m: M,
    gs: Seq<ModelFaces<V>>,
    x: int,
    y: int,
    z: int,
    n: int,
)
    requires
        0 <= n <= gs.len(),
    ensures
        concat_upto(|j: int| group_mapped::<V, T, M>(m, gs[j], x, y, z), n).len()
            == complex_vert_count(gs, n),
    decreases n,
{
    if n > 0 {
        lemma_complex_mapped_len::<V, T, M>(m, gs, x, y, z, n - 1);
        lemma_group_mapped_len::<V, T, M>(m, gs[n - 1], x, y, z);
    }
}

/// Mapping preserves one multipart rule model's vertex count.
pub proof fn lemma_model_other_len<V, T, M: VertexMapper<V, T>>(
    m: M,
    mesh: crate::model::BlockModelMesh<V>,
    x: int,
    y: int,
    z: int,
)
    ensures
        model_other_mapped::<V, T, M>(m, mesh, x, y, z).len() == model_vert_count(mesh),
{
    match mesh.shape {
        CubeOrComplexMesh::Cube(_) => {},
        CubeOrComplexMesh::Complex(gs) => {
            lemma_complex_mapped_len::<V, T, M>(m, gs@, x, y, z, gs@.len() as int);
        },
    }
}

/// Mapping preserves a multipart definition prefix's total vertex count.
pub proof fn lemma_multipart_mapped_len<V, T, M: VertexMapper<V, T>>(
    m: M,
    cases: Seq<MultipartCase<V>>,
    attrs: Seq<(String, String)>,
    x: int,
    y: int,
    z: int,
    n: int,
)
    requires
        0 <= n <= cases.len(),
    ensures
        concat_upto(
            |j: int|
                if case_matches(cases[j], attrs) {
                    model_other_mapped::<V, T, M>(m, cases[j].model, x, y, z)
                } else {
                    Seq::<T>::empty()
                },
            n,
        ).len() == multipart_total(cases, attrs, n),
    decreases n,
{
    if n > 0 {
        lemma_multipart_mapped_len::<V, T, M>(m, cases, attrs, x, y, z, n - 1);
        if case_matches(cases[n - 1], attrs) {
            lemma_model_other_len::<V, T, M>(m, cases[n - 1].model, x, y, z);
        }
    }
}

/// The rules of a registry entry known to be a multipart definition.
pub open spec fn multipart_cases_of<V>(e: BlockEntry<V>) -> Seq<MultipartCase<V>>
    recommends
        e.variant.kind is Multipart,
{
    e.variant.kind->Multipart_0@
}

/// In a volume filled with one multipart state, every cell contributes the
/// same number of "other" vertices: the total of the matching rules.
pub proof fn lemma_uniform_multipart_cell_count<
    V,
    T,
    M: VertexMapper<V, T>,
    F: StateFilter,
    P: BlockStateProvider,
>(bm: BlockManager<V>, m: M, f: F, p: P, pos: (i32, i32), k: BlockstateKey, e: BlockEntry<V>, i: int)
    requires
        volume_filled(p, k),
        resolved(bm, ChunkBlockState::State(k)) == Some(e),
        e.variant.kind is Multipart,
        f.spec_filter(ChunkBlockState::State(k)),
        0 <= i < CHUNK_VOLUME,
    ensures
        cell_other_verts::<V, T, M, F, P>(bm, m, f, p, pos, i).len()
            == multipart_total(
            multipart_cases_of(e),
            e.attributes@,
            multipart_cases_of(e).len() as int,
        ),
{
    lemma_cell_coords_in_volume(i);
    lemma_multipart_mapped_len::<V, T, M>(
        m,
        multipart_cases_of(e),
        e.attributes@,
        world_x(pos, i),
        cell_y(i),
        world_z(pos, i),
        multipart_cases_of(e).len() as int,
    );
}

/// A volume filled with one multipart state bakes `n * total` "other"
/// vertices over its first `n` cells.
pub proof fn lemma_uniform_multipart_other_upto<
    V,
    T,
    M: VertexMapper<V, T>,
    F: StateFilter,
    P: BlockStateProvider,
>(bm: BlockManager<V>, m: M, f: F, p: P, pos: (i32, i32), k: BlockstateKey, e: BlockEntry<V>, n: int)
    requires
        volume_filled(p, k),
        resolved(bm, ChunkBlockState::State(k)) == Some(e),
        e.variant.kind is Multipart,
        f.spec_filter(ChunkBlockState::State(k)),
        0 <= n <= CHUNK_VOLUME,
    ensures
        bake_other_upto::<V, T, M, F, P>(bm, m, f, p, pos, n).len() == n
            * multipart_total(
            multipart_cases_of(e),
            e.attributes@,
            multipart_cases_of(e).len() as int,
        ),
    decreases n,
{
    let t = multipart_total(multipart_cases_of(e), e.attributes@, multipart_cases_of(e).len() as int);
    if n > 0 {
        lemma_uniform_multipart_other_upto::<V, T, M, F, P>(bm, m, f, p, pos, k, e, n - 1);
        lemma_uniform_multipart_cell_count::<V, T, M, F, P>(bm, m, f, p, pos, k, e, n - 1);
        assert(bake_other_upto::<V, T, M, F, P>(bm, m, f, p, pos, n)
            == bake_other_upto::<V, T, M, F, P>(bm, m, f, p, pos, n - 1)
            + cell_other_verts::<V, T, M, F, P>(bm, m, f, p, pos, n - 1));
        assert((n - 1) * t + t == n * t) by (nonlinear_arith);
    } else {
        assert(n * t == 0) by (nonlinear_arith)
            requires
                n == 0,
        ;
    }
}

/// The "other" bucket of a volume filled with one multipart state holds
/// exactly volume × (total vertex count of the matching rules).
pub proof fn lemma_uniform_multipart_other_count<
    V,
    T,
    M: VertexMapper<V, T>,
    F: StateFilter,
    P: BlockStateProvider,
>(bm: BlockManager<V>, m: M, f: F, p: P, pos: (i32, i32), k: BlockstateKey, e: BlockEntry<V>)
    requires
        volume_filled(p, k),
        resolved(bm, ChunkBlockState::State(k)) == Some(e),
        e.variant.kind is Multipart,
        f.spec_filter(ChunkBlockState::State(k)),
    ensures
        spec_bake::<V, T, M, F, P>(bm, m, f, p, pos).nonstandard.len() == CHUNK_VOLUME
            * multipart_total(
            multipart_cases_of(e),
            e.attributes@,
            multipart_cases_of(e).len() as int,
        ),
{
    lemma_uniform_multipart_other_upto::<V, T, M, F, P>(
        bm,
        m,
        f,
        p,
        pos,
        k,
        e,
        CHUNK_VOLUME as int,
    );
}

/// Re-baking after an attribute change that alters the matching rule set's
/// vertex total changes the "other" bucket's vertex count.
pub proof fn lemma_multipart_totals_differ_other_counts_differ<
    V,
    T,
    M: VertexMapper<V, T>,
    F: StateFilter,
    P1: BlockStateProvider,
    P2: BlockStateProvider,
>(
    bm1: BlockManager<V>,
    bm2: BlockManager<V>,
    m: M,
    f: F,
    p1: P1,
    p2: P2,
    pos1: (i32, i32),
    pos2: (i32, i32),
    k1: BlockstateKey,
    k2: BlockstateKey,
    e1: BlockEntry<V>,
    e2: BlockEntry<V>,
)
    requires
        volume_filled(p1, k1),
        volume_filled(p2, k2),
        resolved(bm1, ChunkBlockState::State(k1)) == Some(e1),
        resolved(bm2, ChunkBlockState::State(k2)) == Some(e2),
        e1.variant.kind is Multipart,
        e2.variant.kind is Multipart,
        f.spec_filter(ChunkBlockState::State(k1)),
        f.spec_filter(ChunkBlockState::State(k2)),
        multipart_total(multipart_cases_of(e1), e1.attributes@, multipart_cases_of(e1).len() as int)
            != multipart_total(
            multipart_cases_of(e2),
            e2.attributes@,
            multipart_cases_of(e2).len() as int,
        ),
    ensures
        spec_bake::<V, T, M, F, P1>(bm1, m, f, p1, pos1).nonstandard.len() != spec_bake::<
            V,
            T,
            M,
            F,
            P2,
        >(bm2, m, f, p2, pos2).nonstandard.len(),
{
    lemma_uniform_multipart_other_count::<V, T, M, F, P1>(bm1, m, f, p1, pos1, k1, e1);
    lemma_uniform_multipart_other_count::<V, T, M, F, P2>(bm2, m, f, p2, pos2, k2, e2);
}

/// When the same rules of one multipart definition match under two attribute
/// mappings, the contributions are identical vertex for vertex.
pub proof fn lemma_same_matches_same_multipart<V, T, M: VertexMapper<V, T>>(
    m: M,
    cases: Seq<MultipartCase<V>>,
    attrs1: Seq<(String, String)>,
    attrs2: Seq<(String, String)>,
    x: int,
    y: int,
    z: int,
)
    requires
        forall|j: int|
            0 <= j < cases.len() ==> case_matches(#[trigger] cases[j], attrs1) == case_matches(
                cases[j],
                attrs2,
            ),
    ensures
        multipart_mapped::<V, T, M>(m, cases, attrs1, x, y, z) == multipart_mapped::<V, T, M>(
            m,
            cases,
            attrs2,
            x,
            y,
            z,
        ),
{
    let f = |j: int|
        if case_matches(cases[j], attrs1) {
            model_other_mapped::<V, T, M>(m, cases[j].model, x, y, z)
        } else {
            Seq::<T>::empty()
        };
    let g = |j: int|
        if case_matches(cases[j], attrs2) {
            model_other_mapped::<V, T, M>(m, cases[j].model, x, y, z)
        } else {
            Seq::<T>::empty()
        };
    assert(forall|j: int| 0 <= j < cases.len() ==> #[trigger] f(j) == g(j));
    lemma_concat_upto_congruence(f, g, cases.len() as int);
}

/// Re-baking after an attribute change that leaves the matching rule set
/// unchanged leaves the "other" bucket identical.
pub proof fn lemma_same_matches_same_other_bucket<
    V,
    T,
    M: VertexMapper<V, T>,
    F: StateFilter,
    P1: BlockStateProvider,
    P2: BlockStateProvider,
>(
    bm1: BlockManager<V>,
    bm2: BlockManager<V>,
    m: M,
    f: F,
    p1: P1,
    p2: P2,
    pos: (i32, i32),
    k1: BlockstateKey,
    k2: BlockstateKey,
    e1: BlockEntry<V>,
    e2: BlockEntry<V>,
)
    requires
        volume_filled(p1, k1),
        volume_filled(p2, k2),
        resolved(bm1, ChunkBlockState::State(k1)) == Some(e1),
        resolved(bm2, ChunkBlockState::State(k2)) == Some(e2),
        e1.variant.kind is Multipart,
        e2.variant.kind is Multipart,
        multipart_cases_of(e1) == multipart_cases_of(e2),
        f.spec_filter(ChunkBlockState::State(k1)),
        f.spec_filter(ChunkBlockState::State(k2)),
        forall|j: int|
            0 <= j < multipart_cases_of(e1).len() ==> case_matches(
                #[trigger] multipart_cases_of(e1)[j],
                e1.attributes@,
            ) == case_matches(multipart_cases_of(e1)[j], e2.attributes@),
    ensures
        spec_bake::<V, T, M, F, P1>(bm1, m, f, p1, pos).nonstandard == spec_bake::<V, T, M, F, P2>(
            bm2,
            m,
            f,
            p2,
            pos,
        ).nonstandard,
{
    let c1 = |i: int| cell_other_verts::<V, T, M, F, P1>(bm1, m, f, p1, pos, i);
    let c2 = |i: int| cell_other_verts::<V, T, M, F, P2>(bm2, m, f, p2, pos, i);
    assert forall|i: int| 0 <= i < CHUNK_VOLUME implies #[trigger] c1(i) == c2(i) by {
        lemma_cell_coords_in_volume(i);
        lemma_same_matches_same_multipart::<V, T, M>(
            m,
            multipart_cases_of(e1),
            e1.attributes@,
            e2.attributes@,
            world_x(pos, i),
            cell_y(i),
            world_z(pos, i),
        );
    }
    lemma_concat_upto_congruence(c1, c2, CHUNK_VOLUME as int);
}

/// Baking is deterministic: any two layers baked from the same registry,
/// mapper, filter, provider and chunk position have identical contents.
pub proof fn lemma_bake_deterministic<V, T, M: VertexMapper<V, T>, F: StateFilter, P: BlockStateProvider>(
    a: BakedChunkLayer<T>,
    b: BakedChunkLayer<T>,
    bm: BlockManager<V>,
    m: M,
    f: F,
    p: P,
    pos: (i32, i32),
)
    requires
        a@ == spec_bake(bm, m, f, p, pos),
        b@ == spec_bake(bm, m, f, p, pos),
    ensures
        a@ == b@,
{
}

} // verus!
