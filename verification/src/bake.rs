//! The chunk mesh baker: walks every cell of the chunk volume, resolves each
//! cell's model through the registry, culls cube faces hidden behind opaque
//! neighbors of the same pass — a cell failing the pass's state filter is
//! skipped entirely, contributing no geometry and no culling influence — and
//! accumulates mapped vertices into the seven output buckets.
//!
//! The spec functions here define the exact contents of every bucket, cell by
//! cell in ascending traversal order (x fastest, then z, then y); `bake`'s
//! contract pins its result to them.

use vstd::prelude::*;

use crate::layer::{BakedChunkLayer, LayerContents};
use crate::mapper::{StateFilter, VertexMapper};
use crate::model::{
    opt_verts, predicate_matches, BlockStateDefinitionType, CubeOrComplexMesh, Direction,
    ModelFaces, MultipartCase,
};
use crate::provider::BlockStateProvider;
use crate::registry::{get_block, resolved, BlockManager};
use crate::state::{CHUNK_AREA, CHUNK_HEIGHT, CHUNK_VOLUME, CHUNK_WIDTH};

verus! {

/// The concatenation of `f(0) + f(1) + ... + f(n-1)`.
pub open spec fn concat_upto<T>(f: spec_fn(int) -> Seq<T>, n: int) -> Seq<T>
    decreases n,
{
    if n <= 0 {
        Seq::empty()
    } else {
        concat_upto(f, n - 1) + f(n - 1)
    }
}

/// The x coordinate encoded in flat cell index `i`.
pub open spec fn cell_x(i: int) -> int {
    i % CHUNK_WIDTH as int
}

/// The y coordinate encoded in flat cell index `i`.
pub open spec fn cell_y(i: int) -> int {
    i / CHUNK_AREA as int
}

/// The z coordinate encoded in flat cell index `i`.
pub open spec fn cell_z(i: int) -> int {
    (i % CHUNK_AREA as int) / CHUNK_WIDTH as int
}

/// The absolute world x coordinate of cell `i` of the chunk at `pos`.
pub open spec fn world_x(pos: (i32, i32), i: int) -> int {
    pos.0 * CHUNK_WIDTH as int + cell_x(i)
}

/// The absolute world z coordinate of cell `i` of the chunk at `pos`.
pub open spec fn world_z(pos: (i32, i32), i: int) -> int {
    pos.1 * CHUNK_WIDTH as int + cell_z(i)
}

/// Every vertex of `vs` mapped into world space at `(x, y, z)`.
pub open spec fn mapped_verts<V, T, M: VertexMapper<V, T>>(
    m: M,
    vs: Seq<V>,
    x: int,
    y: int,
    z: int,
) -> Seq<T> {
    vs.map_values(|v| m.spec_map(v, x, y, z))
}

/// What one cube face contributes to its directional bucket: its vertices
/// mapped into world space when the face is visible and defined, else
/// nothing.
pub open spec fn cube_face_verts<V, T, M: VertexMapper<V, T>>(
    m: M,
    face: Option<Vec<V>>,
    visible: bool,
    x: int,
    y: int,
    z: int,
) -> Seq<T> {
    if visible {
        mapped_verts(m, opt_verts(face), x, y, z)
    } else {
        Seq::empty()
    }
}

/// Appends every vertex of `vs`, mapped at world coordinates `(x, y, z)`,
/// onto `out` in order.
pub fn emit_mapped<V, T, M: VertexMapper<V, T>>(
    m: &M,
    vs: &Vec<V>,
    x: i64,
    y: i64,
    z: i64,
    out: &mut Vec<T>,
)
    ensures
        final(out)@ == old(out)@ + mapped_verts::<V, T, M>(*m, vs@, x as int, y as int, z as int),
{
    let mut i: usize = 0;
    while i < vs.len()
        invariant
            0 <= i <= vs@.len(),
            out@ == old(out)@ + mapped_verts::<V, T, M>(
                *m,
                vs@.subrange(0, i as int),
                x as int,
                y as int,
                z as int,
            ),
        decreases vs@.len() - i,
    {
        let t = m.map(&vs[i], x, y, z);
        out.push(t);
        assert(old(out)@ + mapped_verts::<V, T, M>(
            *m,
            vs@.subrange(0, i as int),
            x as int,
            y as int,
            z as int,
        ) + seq![t] =~= old(out)@ + mapped_verts::<V, T, M>(
            *m,
            vs@.subrange(0, i as int + 1),
            x as int,
            y as int,
            z as int,
        ));
        i += 1;
    }
    assert(vs@.subrange(0, vs@.len() as int) =~= vs@);
}

/// Appends one cube face's contribution onto `out`: its mapped vertices when
/// `visible` and the face is defined, else nothing.
pub fn emit_cube_face<V, T, M: VertexMapper<V, T>>(
    m: &M,
    face: &Option<Vec<V>>,
    visible: bool,
    x: i64,
    y: i64,
    z: i64,
    out: &mut Vec<T>,
)
    ensures
        final(out)@ == old(out)@ + cube_face_verts::<V, T, M>(
            *m,
            *face,
            visible,
            x as int,
            y as int,
            z as int,
        ),
{
    if visible {
        match face {
            Some(vs) => {
                emit_mapped(m, vs, x, y, z, out);
            },
            None => {
                assert(out@ =~= old(out)@ + cube_face_verts::<V, T, M>(
                    *m,
                    *face,
                    visible,
                    x as int,
                    y as int,
                    z as int,
                ));
            },
        }
    } else {
        assert(out@ =~= old(out)@ + cube_face_verts::<V, T, M>(
            *m,
            *face,
            visible,
            x as int,
            y as int,
            z as int,
        ));
    }
}

/// What one complex face group contributes: the vertices of its six faces,
/// in the order north, east, south, west, up, down, mapped into world space.
/// Complex geometry is exempt from culling, so every face contributes.
pub open spec fn group_mapped<V, T, M: VertexMapper<V, T>>(
    m: M,
    g: ModelFaces<V>,
    x: int,
    y: int,
    z: int,
) -> Seq<T> {
    mapped_verts(m, opt_verts(g.north), x, y, z) + mapped_verts(m, opt_verts(g.east), x, y, z)
        + mapped_verts(m, opt_verts(g.south), x, y, z) + mapped_verts(m, opt_verts(g.west), x, y, z)
        + mapped_verts(m, opt_verts(g.up), x, y, z) + mapped_verts(m, opt_verts(g.down), x, y, z)
}

/// What a complex mesh contributes: each face group in order.
pub open spec fn complex_mapped<V, T, M: VertexMapper<V, T>>(
    m: M,
    gs: Seq<ModelFaces<V>>,
    x: int,
    y: int,
    z: int,
) -> Seq<T> {
    concat_upto(|j: int| group_mapped(m, gs[j], x, y, z), gs.len() as int)
}

/// What a cube model contributes when emitted without culling (inside a
/// multipart rule): its six faces in the order north, south, up, down, west,
/// east, mapped into world space.
pub open spec fn cube_unculled_mapped<V, T, M: VertexMapper<V, T>>(
    m: M,
    c: ModelFaces<V>,
    x: int,
    y: int,
    z: int,
) -> Seq<T> {
    mapped_verts(m, opt_verts(c.north), x, y, z) + mapped_verts(m, opt_verts(c.south), x, y, z)
        + mapped_verts(m, opt_verts(c.up), x, y, z) + mapped_verts(m, opt_verts(c.down), x, y, z)
        + mapped_verts(m, opt_verts(c.west), x, y, z) + mapped_verts(m, opt_verts(c.east), x, y, z)
}

/// What one multipart rule's model contributes to the "other" bucket.
pub open spec fn model_other_mapped<V, T, M: VertexMapper<V, T>>(
    m: M,
    mesh: crate::model::BlockModelMesh<V>,
    x: int,
    y: int,
    z: int,
) -> Seq<T> {
    match mesh.shape {
        CubeOrComplexMesh::Cube(c) => cube_unculled_mapped(m, c, x, y, z),
        CubeOrComplexMesh::Complex(gs) => complex_mapped(m, gs@, x, y, z),
    }
}

/// Whether a multipart rule applies to a block state's attribute mapping.
pub open spec fn case_matches<V>(c: MultipartCase<V>, attrs: Seq<(String, String)>) -> bool {
    predicate_matches(c.predicate@, attrs)
}

/// What a multipart definition contributes: the models of exactly the rules
/// whose predicate the attribute mapping satisfies, in rule order.
pub open spec fn multipart_mapped<V, T, M: VertexMapper<V, T>>(
    m: M,
    cases: Seq<MultipartCase<V>>,
    attrs: Seq<(String, String)>,
    x: int,
    y: int,
    z: int,
) -> Seq<T> {
    concat_upto(
        |j: int|
            if case_matches(cases[j], attrs) {
                model_other_mapped(m, cases[j].model, x, y, z)
            } else {
                Seq::empty()
            },
        cases.len() as int,
    )
}

/// Appends one complex face group's contribution onto `out`.
pub fn emit_group<V, T, M: VertexMapper<V, T>>(
    m: &M,
    g: &ModelFaces<V>,
    x: i64,
    y: i64,
    z: i64,
    out: &mut Vec<T>,
)
    ensures
        final(out)@ == old(out)@ + group_mapped::<V, T, M>(*m, *g, x as int, y as int, z as int),
{
    emit_cube_face(m, &g.north, true, x, y, z, out);
    emit_cube_face(m, &g.east, true, x, y, z, out);
    emit_cube_face(m, &g.south, true, x, y, z, out);
    emit_cube_face(m, &g.west, true, x, y, z, out);
    emit_cube_face(m, &g.up, true, x, y, z, out);
    emit_cube_face(m, &g.down, true, x, y, z, out);
    assert(out@ =~= old(out)@ + group_mapped::<V, T, M>(*m, *g, x as int, y as int, z as int));
}

/// Appends a whole complex mesh's contribution onto `out`, group by group.
pub fn emit_complex<V, T, M: VertexMapper<V, T>>(
    m: &M,
    gs: &Vec<ModelFaces<V>>,
    x: i64,
    y: i64,
    z: i64,
    out: &mut Vec<T>,
)
    ensures
        final(out)@ == old(out)@ + complex_mapped::<V, T, M>(*m, gs@, x as int, y as int, z as int),
{
    let mut j: usize = 0;
    while j < gs.len()
        invariant
            0 <= j <= gs@.len(),
            out@ == old(out)@ + concat_upto(
                |k: int| group_mapped::<V, T, M>(*m, gs@[k], x as int, y as int, z as int),
                j as int,
            ),
        decreases gs@.len() - j,
    {
        emit_group(m, &gs[j], x, y, z, out);
        assert(out@ =~= old(out)@ + concat_upto(
            |k: int| group_mapped::<V, T, M>(*m, gs@[k], x as int, y as int, z as int),
            j as int + 1,
        ));
        j += 1;
    }
}

/// Appends a cube model's uncullable contribution onto `out` (used inside
/// multipart rules, where cube geometry is never direction-culled).
pub fn emit_cube_unculled<V, T, M: VertexMapper<V, T>>(
    m: &M,
    c: &ModelFaces<V>,
    x: i64,
    y: i64,
    z: i64,
    out: &mut Vec<T>,
)
    ensures
        final(out)@ == old(out)@ + cube_unculled_mapped::<V, T, M>(
            *m,
            *c,
            x as int,
            y as int,
            z as int,
        ),
{
    emit_cube_face(m, &c.north, true, x, y, z, out);
    emit_cube_face(m, &c.south, true, x, y, z, out);
    emit_cube_face(m, &c.up, true, x, y, z, out);
    emit_cube_face(m, &c.down, true, x, y, z, out);
    emit_cube_face(m, &c.west, true, x, y, z, out);
    emit_cube_face(m, &c.east, true, x, y, z, out);
    assert(out@ =~= old(out)@ + cube_unculled_mapped::<V, T, M>(
        *m,
        *c,
        x as int,
        y as int,
        z as int,
    ));
}

/// Appends one model's "other"-bucket contribution onto `out`.
pub fn emit_model_other<V, T, M: VertexMapper<V, T>>(
    m: &M,
    mesh: &crate::model::BlockModelMesh<V>,
    x: i64,
    y: i64,
    z: i64,
    out: &mut Vec<T>,
)
    ensures
        final(out)@ == old(out)@ + model_other_mapped::<V, T, M>(
            *m,
            *mesh,
            x as int,
            y as int,
            z as int,
        ),
{
    match &mesh.shape {
        CubeOrComplexMesh::Cube(c) => {
            emit_cube_unculled(m, c, x, y, z, out);
        },
        CubeOrComplexMesh::Complex(gs) => {
            emit_complex(m, gs, x, y, z, out);
        },
    }
}

/// Appends a multipart definition's contribution onto `out`: the model of
/// every rule whose predicate `attrs` satisfies, in rule order.
pub fn emit_multipart<V, T, M: VertexMapper<V, T>>(
    m: &M,
    cases: &Vec<MultipartCase<V>>,
    attrs: &Vec<(String, String)>,
    x: i64,
    y: i64,
    z: i64,
    out: &mut Vec<T>,
)
    ensures
        final(out)@ == old(out)@ + multipart_mapped::<V, T, M>(
            *m,
            cases@,
            attrs@,
            x as int,
            y as int,
            z as int,
        ),
{
    let mut j: usize = 0;
    while j < cases.len()
        invariant
            0 <= j <= cases@.len(),
            out@ == old(out)@ + concat_upto(
                |k: int|
                    if case_matches(cases@[k], attrs@) {
                        model_other_mapped::<V, T, M>(
                            *m,
                            cases@[k].model,
                            x as int,
                            y as int,
                            z as int,
                        )
                    } else {
                        Seq::empty()
                    },
                j as int,
            ),
        decreases cases@.len() - j,
    {
        let ghost inv_fn = |k: int|
            if case_matches(cases@[k], attrs@) {
                model_other_mapped::<V, T, M>(*m, cases@[k].model, x as int, y as int, z as int)
            } else {
                Seq::empty()
            };
        if crate::model::eval_predicate(&cases[j].predicate, attrs) {
            emit_model_other(m, &cases[j].model, x, y, z, out);
        }
        assert(out@ =~= old(out)@ + concat_upto(inv_fn, j as int + 1));
        j += 1;
    }
}

/// Whether the cell at `(x, y, z)` lets faces pressed against it render:
/// true for a transparent-or-complex block, true for an unresolvable cell —
/// an absent neighbor or a sparse registry never silently culls a face — and
/// true for a cell whose state fails the pass's filter. A filtered-out cell
/// takes no part in the pass at all: it contributes no geometry and exerts
/// no culling influence.
pub open spec fn neighbor_transparent<V, F: StateFilter, P: BlockStateProvider>(
    bm: BlockManager<V>,
    f: F,
    p: P,
    x: int,
    y: int,
    z: int,
) -> bool {
    let state = p.spec_state(x, y, z);
    if !f.spec_filter(state) {
        true
    } else {
        match resolved(bm, state) {
            None => true,
            Some(e) => e.variant.transparent_or_complex,
        }
    }
}

/// What cell `i` contributes to the directional bucket `d`: the mapped
/// vertices of its cube face pointing in `d`, when the cell passes the
/// filter, resolves to a cube model, and its `d`-neighbor is transparent,
/// filtered out, or unresolvable; nothing otherwise. Complex and multipart
/// geometry contributes only to the "other" bucket.
pub open spec fn cell_dir_verts<
    V,
    T,
    M: VertexMapper<V, T>,
    F: StateFilter,
    P: BlockStateProvider,
>(
    bm: BlockManager<V>,
    m: M,
    f: F,
    p: P,
    pos: (i32, i32),
    i: int,
    d: Direction,
) -> Seq<T> {
    let x = cell_x(i);
    let y = cell_y(i);
    let z = cell_z(i);
    let state = p.spec_state(x, y, z);
    if !f.spec_filter(state) {
        Seq::empty()
    } else {
        match resolved(bm, state) {
            None => Seq::empty(),
            Some(e) => match e.variant.kind {
                BlockStateDefinitionType::Variant(mesh) => match mesh.shape {
                    CubeOrComplexMesh::Cube(model) => cube_face_verts(
                        m,
                        model.face(d),
                        neighbor_transparent(bm, f, p, x + d.dx(), y + d.dy(), z + d.dz()),
                        world_x(pos, i),
                        y,
                        world_z(pos, i),
                    ),
                    CubeOrComplexMesh::Complex(_) => Seq::empty(),
                },
                BlockStateDefinitionType::Multipart(_) => Seq::empty(),
            },
        }
    }
}

/// What cell `i` contributes to the "other" bucket: a complex mesh in full,
/// or the models of a multipart definition's matching rules; nothing for a
/// cube model, whose geometry goes to the directional buckets.
pub open spec fn cell_other_verts<
    V,
    T,
    M: VertexMapper<V, T>,
    F: StateFilter,
    P: BlockStateProvider,
>(
    bm: BlockManager<V>,
    m: M,
    f: F,
    p: P,
    pos: (i32, i32),
    i: int,
) -> Seq<T> {
    let x = cell_x(i);
    let y = cell_y(i);
    let z = cell_z(i);
    let state = p.spec_state(x, y, z);
    if !f.spec_filter(state) {
        Seq::empty()
    } else {
        match resolved(bm, state) {
            None => Seq::empty(),
            Some(e) => match e.variant.kind {
                BlockStateDefinitionType::Variant(mesh) => match mesh.shape {
                    CubeOrComplexMesh::Cube(_) => Seq::empty(),
                    CubeOrComplexMesh::Complex(gs) => mapped_complex_at(m, gs@, pos, i),
                },
                BlockStateDefinitionType::Multipart(cases) => mapped_multipart_at(
                    m,
                    cases@,
                    e.attributes@,
                    pos,
                    i,
                ),
            },
        }
    }
}

/// A complex mesh's contribution placed at cell `i`'s world coordinates.
pub open spec fn mapped_complex_at<V, T, M: VertexMapper<V, T>>(
    m: M,
    gs: Seq<ModelFaces<V>>,
    pos: (i32, i32),
    i: int,
) -> Seq<T> {
    complex_mapped(m, gs, world_x(pos, i), cell_y(i), world_z(pos, i))
}

/// A multipart definition's contribution placed at cell `i`'s world
/// coordinates.
pub open spec fn mapped_multipart_at<V, T, M: VertexMapper<V, T>>(
    m: M,
    cases: Seq<MultipartCase<V>>,
    attrs: Seq<(String, String)>,
    pos: (i32, i32),
    i: int,
) -> Seq<T> {
    multipart_mapped(m, cases, attrs, world_x(pos, i), cell_y(i), world_z(pos, i))
}

/// The directional bucket `d` after baking the first `n` cells.
pub open spec fn bake_dir_upto<V, T, M: VertexMapper<V, T>, F: StateFilter, P: BlockStateProvider>(
    bm: BlockManager<V>,
    m: M,
    f: F,
    p: P,
    pos: (i32, i32),
    d: Direction,
    n: int,
) -> Seq<T> {
    concat_upto(|i: int| cell_dir_verts(bm, m, f, p, pos, i, d), n)
}

/// The "other" bucket after baking the first `n` cells.
pub open spec fn bake_other_upto<
    V,
    T,
    M: VertexMapper<V, T>,
    F: StateFilter,
    P: BlockStateProvider,
>(
    bm: BlockManager<V>,
    m: M,
    f: F,
    p: P,
    pos: (i32, i32),
    n: int,
) -> Seq<T> {
    concat_upto(|i: int| cell_other_verts(bm, m, f, p, pos, i), n)
}

/// The complete baked layer for a chunk: every bucket's exact contents.
pub open spec fn spec_bake<V, T, M: VertexMapper<V, T>, F: StateFilter, P: BlockStateProvider>(
    bm: BlockManager<V>,
    m: M,
    f: F,
    p: P,
    pos: (i32, i32),
) -> LayerContents<T> {
    LayerContents {
        top: bake_dir_upto(bm, m, f, p, pos, Direction::Up, CHUNK_VOLUME as int),
        bottom: bake_dir_upto(bm, m, f, p, pos, Direction::Down, CHUNK_VOLUME as int),
        north: bake_dir_upto(bm, m, f, p, pos, Direction::North, CHUNK_VOLUME as int),
        east: bake_dir_upto(bm, m, f, p, pos, Direction::East, CHUNK_VOLUME as int),
        south: bake_dir_upto(bm, m, f, p, pos, Direction::South, CHUNK_VOLUME as int),
        west: bake_dir_upto(bm, m, f, p, pos, Direction::West, CHUNK_VOLUME as int),
        nonstandard: bake_other_upto(bm, m, f, p, pos, CHUNK_VOLUME as int),
    }
}

/// Concatenating an empty sequence on the right changes nothing.
pub proof fn lemma_add_empty<A>(s: Seq<A>)
    ensures
        s + Seq::<A>::empty() == s,
{
    assert(s + Seq::<A>::empty() =~= s);
}

/// Returns whether the cube face of the block at in-volume coordinates
/// `(x, y, z)` pointing in direction `d` is visible in the pass filtered by
/// `f`: its neighbor one cell over in `d` fails the filter, resolves to a
/// transparent-or-complex block, or does not resolve at all.
pub fn face_visible<V, F: StateFilter, P: BlockStateProvider>(
    bm: &BlockManager<V>,
    f: &F,
    p: &P,
    x: i32,
    y: i16,
    z: i32,
    d: Direction,
) -> (r: bool)
    requires
        0 <= x < CHUNK_WIDTH as i32,
        0 <= y < CHUNK_HEIGHT as i16,
        0 <= z < CHUNK_WIDTH as i32,
    ensures
        r == neighbor_transparent(
            *bm,
            *f,
            *p,
            x as int + d.dx(),
            y as int + d.dy(),
            z as int + d.dz(),
        ),
{
    let nx: i32 = match d {
        Direction::East => x + 1,
        Direction::West => x - 1,
        _ => x,
    };
    let ny: i16 = match d {
        Direction::Up => y + 1,
        Direction::Down => y - 1,
        _ => y,
    };
    let nz: i32 = match d {
        Direction::South => z + 1,
        Direction::North => z - 1,
        _ => z,
    };
    let state = p.get_state(nx, ny, nz);
    if !f.filter(state) {
        return true;
    }
    match get_block(bm, &state) {
        Some(e) => e.variant.transparent_or_complex,
        None => true,
    }
}

/// Bakes one cell: appends exactly the cell's contribution onto each of the
/// seven buckets.
#[verifier::rlimit(60)]
fn bake_cell<V, T, M: VertexMapper<V, T>, F: StateFilter, P: BlockStateProvider>(
    bm: &BlockManager<V>,
    mapper: &M,
    filter: &F,
    provider: &P,
    pos: (i32, i32),
    i: usize,
    up_out: &mut Vec<T>,
    down_out: &mut Vec<T>,
    north_out: &mut Vec<T>,
    east_out: &mut Vec<T>,
    south_out: &mut Vec<T>,
    west_out: &mut Vec<T>,
    other_out: &mut Vec<T>,
)
    requires
        i < CHUNK_VOLUME,
    ensures
        final(up_out)@ == old(up_out)@ + cell_dir_verts(
            *bm,
            *mapper,
            *filter,
            *provider,
            pos,
            i as int,
            Direction::Up,
        ),
        final(down_out)@ == old(down_out)@ + cell_dir_verts(
            *bm,
            *mapper,
            *filter,
            *provider,
            pos,
            i as int,
            Direction::Down,
        ),
        final(north_out)@ == old(north_out)@ + cell_dir_verts(
            *bm,
            *mapper,
            *filter,
            *provider,
            pos,
            i as int,
            Direction::North,
        ),
        final(east_out)@ == old(east_out)@ + cell_dir_verts(
            *bm,
            *mapper,
            *filter,
            *provider,
            pos,
            i as int,
            Direction::East,
        ),
        final(south_out)@ == old(south_out)@ + cell_dir_verts(
            *bm,
            *mapper,
            *filter,
            *provider,
            pos,
            i as int,
            Direction::South,
        ),
        final(west_out)@ == old(west_out)@ + cell_dir_verts(
            *bm,
            *mapper,
            *filter,
            *provider,
            pos,
            i as int,
            Direction::West,
        ),
        final(other_out)@ == old(other_out)@ + cell_other_verts(
            *bm,
            *mapper,
            *filter,
            *provider,
            pos,
            i as int,
        ),
{
    let x: i32 = (i % CHUNK_WIDTH) as i32;
    let y: i16 = (i / CHUNK_AREA) as i16;
    let z: i32 = ((i % CHUNK_AREA) / CHUNK_WIDTH) as i32;
    assert(x as int == cell_x(i as int));
    assert(y as int == cell_y(i as int));
    assert(z as int == cell_z(i as int));
    assert(CHUNK_WIDTH as i64 == 16i64);
    let world_x64: i64 = (pos.0 as i64) * (CHUNK_WIDTH as i64) + (x as i64);
    let world_y64: i64 = y as i64;
    let world_z64: i64 = (pos.1 as i64) * (CHUNK_WIDTH as i64) + (z as i64);
    assert(world_x64 as int == world_x(pos, i as int));
    assert(world_z64 as int == world_z(pos, i as int));

    let block_state = provider.get_state(x, y, z);

    if !filter.filter(block_state) {
        proof {
            lemma_add_empty(up_out@);
            lemma_add_empty(down_out@);
            lemma_add_empty(north_out@);
            lemma_add_empty(east_out@);
            lemma_add_empty(south_out@);
            lemma_add_empty(west_out@);
            lemma_add_empty(other_out@);
        }
        return ;
    }

    let entry = match get_block(bm, &block_state) {
        None => {
            proof {
                lemma_add_empty(up_out@);
                lemma_add_empty(down_out@);
                lemma_add_empty(north_out@);
                lemma_add_empty(east_out@);
                lemma_add_empty(south_out@);
                lemma_add_empty(west_out@);
                lemma_add_empty(other_out@);
            }
            return ;
        },
        Some(e) => e,
    };

    match &entry.variant.kind {
        BlockStateDefinitionType::Variant(mesh) => {
            match &mesh.shape {
                CubeOrComplexMesh::Cube(model) => {
                    let render_north = face_visible(bm, filter, provider, x, y, z, Direction::North);
                    let render_east = face_visible(bm, filter, provider, x, y, z, Direction::East);
                    let render_south = face_visible(bm, filter, provider, x, y, z, Direction::South);
                    let render_west = face_visible(bm, filter, provider, x, y, z, Direction::West);
                    let render_up = face_visible(bm, filter, provider, x, y, z, Direction::Up);
                    let render_down = face_visible(bm, filter, provider, x, y, z, Direction::Down);
                    emit_cube_face(
                        mapper,
                        &model.north,
                        render_north,
                        world_x64,
                        world_y64,
                        world_z64,
                        north_out,
                    );
                    emit_cube_face(
                        mapper,
                        &model.east,
                        render_east,
                        world_x64,
                        world_y64,
                        world_z64,
                        east_out,
                    );
                    emit_cube_face(
                        mapper,
                        &model.south,
                        render_south,
                        world_x64,
                        world_y64,
                        world_z64,
                        south_out,
                    );
                    emit_cube_face(
                        mapper,
                        &model.west,
                        render_west,
                        world_x64,
                        world_y64,
                        world_z64,
                        west_out,
                    );
                    emit_cube_face(
                        mapper,
                        &model.up,
                        render_up,
                        world_x64,
                        world_y64,
                        world_z64,
                        up_out,
                    );
                    emit_cube_face(
                        mapper,
                        &model.down,
                        render_down,
                        world_x64,
                        world_y64,
                        world_z64,
                        down_out,
                    );
                    proof {
                        lemma_add_empty(other_out@);
                    }
                },
                CubeOrComplexMesh::Complex(gs) => {
                    emit_complex(mapper, gs, world_x64, world_y64, world_z64, other_out);
                    proof {
                        lemma_add_empty(up_out@);
                        lemma_add_empty(down_out@);
                        lemma_add_empty(north_out@);
                        lemma_add_empty(east_out@);
                        lemma_add_empty(south_out@);
                        lemma_add_empty(west_out@);
                    }
                },
            }
        },
        BlockStateDefinitionType::Multipart(cases) => {
            emit_multipart(
                mapper,
                cases,
                &entry.attributes,
                world_x64,
                world_y64,
                world_z64,
                other_out,
            );
            proof {
                lemma_add_empty(up_out@);
                lemma_add_empty(down_out@);
                lemma_add_empty(north_out@);
                lemma_add_empty(east_out@);
                lemma_add_empty(south_out@);
                lemma_add_empty(west_out@);
            }
        },
    }
}

impl<T> BakedChunkLayer<T> {
    /// Bakes the chunk at `chunk_pos`: walks every cell of the volume in
    /// ascending index order (x fastest, then z, then y), resolves each
    /// cell's model through the registry, culls cube faces hidden behind
    /// opaque neighbors that take part in the same pass, and returns the
    /// seven buckets whose exact contents `spec_bake` defines.
    #[must_use]
    pub fn bake<V, M: VertexMapper<V, T>, F: StateFilter, P: BlockStateProvider>(
        block_manager: &BlockManager<V>,
        chunk_pos: (i32, i32),
        mapper: &M,
        filter: &F,
        state_provider: &P,
    ) -> (r: Self)
        ensures
            r@ == spec_bake(*block_manager, *mapper, *filter, *state_provider, chunk_pos),
    {
        let mut up_vertices: Vec<T> = Vec::new();
        let mut down_vertices: Vec<T> = Vec::new();
        let mut north_vertices: Vec<T> = Vec::new();
        let mut east_vertices: Vec<T> = Vec::new();
        let mut south_vertices: Vec<T> = Vec::new();
        let mut west_vertices: Vec<T> = Vec::new();
        let mut other_vertices: Vec<T> = Vec::new();

        let mut block_index: usize = 0;
        while block_index < CHUNK_VOLUME
            invariant
                0 <= block_index <= CHUNK_VOLUME,
                up_vertices@ == bake_dir_upto(
                    *block_manager,
                    *mapper,
                    *filter,
                    *state_provider,
                    chunk_pos,
                    Direction::Up,
                    block_index as int,
                ),
                down_vertices@ == bake_dir_upto(
                    *block_manager,
                    *mapper,
                    *filter,
                    *state_provider,
                    chunk_pos,
                    Direction::Down,
                    block_index as int,
                ),
                north_vertices@ == bake_dir_upto(
                    *block_manager,
                    *mapper,
                    *filter,
                    *state_provider,
                    chunk_pos,
                    Direction::North,
                    block_index as int,
                ),
                east_vertices@ == bake_dir_upto(
                    *block_manager,
                    *mapper,
                    *filter,
                    *state_provider,
                    chunk_pos,
                    Direction::East,
                    block_index as int,
                ),
                south_vertices@ == bake_dir_upto(
                    *block_manager,
                    *mapper,
                    *filter,
                    *state_provider,
                    chunk_pos,
                    Direction::South,
                    block_index as int,
                ),
                west_vertices@ == bake_dir_upto(
                    *block_manager,
                    *mapper,
                    *filter,
                    *state_provider,
                    chunk_pos,
                    Direction::West,
                    block_index as int,
                ),
                other_vertices@ == bake_other_upto(
                    *block_manager,
                    *mapper,
                    *filter,
                    *state_provider,
                    chunk_pos,
                    block_index as int,
                ),
            decreases CHUNK_VOLUME - block_index,
        {
            bake_cell(
                block_manager,
                mapper,
                filter,
                state_provider,
                chunk_pos,
                block_index,
                &mut up_vertices,
                &mut down_vertices,
                &mut north_vertices,
                &mut east_vertices,
                &mut south_vertices,
                &mut west_vertices,
                &mut other_vertices,
            );
            block_index += 1;
        }

        let r = Self {
            top: up_vertices,
            bottom: down_vertices,
            north: north_vertices,
            east: east_vertices,
            south: south_vertices,
            west: west_vertices,
            nonstandard: other_vertices,
        };
        assert(r@ =~= spec_bake(*block_manager, *mapper, *filter, *state_provider, chunk_pos));
        r
    }
}

} // verus!
