use voxelmesh::bake::face_visible;
use voxelmesh::chunk::{Chunk, LayerDefinition};
use voxelmesh::layer::BakedChunkLayer;
use voxelmesh::mapper::{AcceptAllFilter, SingleKeyFilter, WorldTagMapper, WorldVertex};
use voxelmesh::model::{
    BlockModelMesh, BlockStateDefinitionType, BlockVariant, CubeOrComplexMesh, Direction,
    ModelFaces, MultipartCase,
};
use voxelmesh::provider::{BlockStateProvider, ChunkArrayProvider, SimpleBlockstateProvider};
use voxelmesh::registry::{BlockEntry, BlockManager};
use voxelmesh::state::{BlockstateKey, ChunkBlockState, CHUNK_VOLUME, CHUNK_WIDTH};

#[derive(Clone, Copy, Debug, PartialEq, Eq)]
struct MV(u32);

fn faces_with(n: usize, base: u32) -> ModelFaces<MV> {
    ModelFaces {
        north: Some(vec![MV(base); n]),
        east: Some(vec![MV(base + 1); n]),
        south: Some(vec![MV(base + 2); n]),
        west: Some(vec![MV(base + 3); n]),
        up: Some(vec![MV(base + 4); n]),
        down: Some(vec![MV(base + 5); n]),
    }
}

fn cube_variant(faces: ModelFaces<MV>, transparent: bool) -> BlockVariant<MV> {
    BlockVariant {
        kind: BlockStateDefinitionType::Variant(BlockModelMesh {
            shape: CubeOrComplexMesh::Cube(faces),
        }),
        transparent_or_complex: transparent,
    }
}

fn one_entry_manager(variant: BlockVariant<MV>) -> BlockManager<MV> {
    BlockManager {
        block_states: vec![BlockEntry { attributes: vec![], variant }],
        blocks: vec!["stone".to_string()],
    }
}

fn key0() -> BlockstateKey {
    BlockstateKey { block: 0, augment: 0 }
}

fn full_volume_provider(key: BlockstateKey) -> ChunkArrayProvider {
    ChunkArrayProvider { cells: vec![ChunkBlockState::State(key); CHUNK_VOLUME] }
}

#[test]
fn full_volume_opaque_culls_interior_keeps_boundary() {
    let bm = one_entry_manager(cube_variant(faces_with(1, 100), false));
    let provider = full_volume_provider(key0());
    let layer = BakedChunkLayer::bake(&bm, (0, 0), &WorldTagMapper, &AcceptAllFilter, &provider);
    let counts = layer.counts();
    // Each boundary plane of the 16x256x16 volume exposes one face per cell:
    // the vertical sides are 16x256, top and bottom are 16x16.
    assert_eq!(counts.north, 16 * 256);
    assert_eq!(counts.south, 16 * 256);
    assert_eq!(counts.east, 16 * 256);
    assert_eq!(counts.west, 16 * 256);
    assert_eq!(counts.top, 16 * 16);
    assert_eq!(counts.bottom, 16 * 16);
    assert_eq!(counts.nonstandard, 0);
}

#[test]
fn single_block_all_faces_emitted() {
    let bm = one_entry_manager(cube_variant(faces_with(4, 200), false));
    let mut cells = vec![ChunkBlockState::Absent; CHUNK_VOLUME];
    let (x0, y0, z0) = (5usize, 10usize, 7usize);
    cells[y0 * 256 + z0 * 16 + x0] = ChunkBlockState::State(key0());
    let provider = ChunkArrayProvider { cells };
    let layer = BakedChunkLayer::bake(&bm, (3, -2), &WorldTagMapper, &AcceptAllFilter, &provider);
    let counts = layer.counts();
    assert_eq!(counts.north, 4);
    assert_eq!(counts.south, 4);
    assert_eq!(counts.east, 4);
    assert_eq!(counts.west, 4);
    assert_eq!(counts.top, 4);
    assert_eq!(counts.bottom, 4);
    assert_eq!(counts.nonstandard, 0);
    // The mapper tagged each vertex with the block's absolute world position.
    let expected_x = 3 * CHUNK_WIDTH as i64 + x0 as i64;
    let expected_z = -2 * CHUNK_WIDTH as i64 + z0 as i64;
    for v in &layer.north {
        assert_eq!(*v, WorldVertex { vertex: MV(200), x: expected_x, y: y0 as i64, z: expected_z });
    }
    for v in &layer.top {
        assert_eq!(v.vertex, MV(204));
    }
}

#[test]
fn face_none_yields_empty_bucket() {
    let mut faces = faces_with(4, 300);
    faces.north = None;
    let bm = one_entry_manager(cube_variant(faces, false));
    let mut cells = vec![ChunkBlockState::Absent; CHUNK_VOLUME];
    cells[0] = ChunkBlockState::State(key0());
    let provider = ChunkArrayProvider { cells };
    let layer = BakedChunkLayer::bake(&bm, (0, 0), &WorldTagMapper, &AcceptAllFilter, &provider);
    let counts = layer.counts();
    // The north neighbor of cell (0, 0, 0) is outside the volume, hence
    // transparent: only the missing face list keeps the bucket empty.
    assert_eq!(counts.north, 0);
    assert_eq!(counts.south, 4);
    assert_eq!(counts.east, 4);
    assert_eq!(counts.west, 4);
    assert_eq!(counts.top, 4);
    assert_eq!(counts.bottom, 4);
}

#[test]
fn transparent_neighbor_keeps_faces() {
    // Two adjacent blocks: an opaque cube at x=0 and a transparent one at x=1.
    let opaque = cube_variant(faces_with(1, 400), false);
    let transparent = cube_variant(faces_with(1, 500), true);
    let bm = BlockManager {
        block_states: vec![
            BlockEntry { attributes: vec![], variant: opaque },
            BlockEntry { attributes: vec![], variant: transparent },
        ],
        blocks: vec!["stone".to_string(), "glass".to_string()],
    };
    let mut cells = vec![ChunkBlockState::Absent; CHUNK_VOLUME];
    cells[0] = ChunkBlockState::State(BlockstateKey { block: 0, augment: 0 });
    cells[1] = ChunkBlockState::State(BlockstateKey { block: 0, augment: 1 });
    let provider = ChunkArrayProvider { cells };
    let layer = BakedChunkLayer::bake(&bm, (0, 0), &WorldTagMapper, &AcceptAllFilter, &provider);
    // The opaque block's east face renders against the transparent neighbor;
    // the transparent block's west face is culled by the opaque neighbor.
    let east_at_zero: Vec<_> = layer.east.iter().filter(|v| v.x == 0).collect();
    let west_at_one: Vec<_> = layer.west.iter().filter(|v| v.x == 1).collect();
    assert_eq!(east_at_zero.len(), 1);
    assert_eq!(west_at_one.len(), 0);
}

#[test]
fn opaque_neighbor_culls_face() {
    let bm = one_entry_manager(cube_variant(faces_with(1, 450), false));
    let mut cells = vec![ChunkBlockState::Absent; CHUNK_VOLUME];
    cells[0] = ChunkBlockState::State(key0());
    cells[1] = ChunkBlockState::State(key0());
    let provider = ChunkArrayProvider { cells };
    assert!(!face_visible(&bm, &AcceptAllFilter, &provider, 0, 0, 0, Direction::East));
    assert!(face_visible(&bm, &AcceptAllFilter, &provider, 0, 0, 0, Direction::West));
    let layer = BakedChunkLayer::bake(&bm, (0, 0), &WorldTagMapper, &AcceptAllFilter, &provider);
    // Ten faces render in total: six per block minus the two touching ones.
    let total = {
        let c = layer.counts();
        c.top + c.bottom + c.north + c.east + c.south + c.west
    };
    assert_eq!(total, 10);
}

#[test]
fn complex_mesh_goes_to_nonstandard_unculled() {
    let complex = BlockVariant {
        kind: BlockStateDefinitionType::Variant(BlockModelMesh {
            shape: CubeOrComplexMesh::Complex(vec![faces_with(2, 600), faces_with(3, 700)]),
        }),
        transparent_or_complex: true,
    };
    let bm = one_entry_manager(complex);
    let provider = full_volume_provider(key0());
    let layer = BakedChunkLayer::bake(&bm, (0, 0), &WorldTagMapper, &AcceptAllFilter, &provider);
    let counts = layer.counts();
    assert_eq!(counts.top, 0);
    assert_eq!(counts.bottom, 0);
    assert_eq!(counts.north, 0);
    assert_eq!(counts.east, 0);
    assert_eq!(counts.south, 0);
    assert_eq!(counts.west, 0);
    // Every cell contributes both groups in full: (6*2 + 6*3) vertices each.
    assert_eq!(counts.nonstandard, CHUNK_VOLUME * 30);
}

fn multipart_variant() -> BlockVariant<MV> {
    // Three rules: one gated on facing=north (a cube of six 1-vertex faces),
    // one gated on facing=south (a complex mesh of one 12-vertex group), and
    // one unconditional (six more vertices).
    BlockVariant {
        kind: BlockStateDefinitionType::Multipart(vec![
            MultipartCase {
                predicate: vec![("facing".to_string(), "north".to_string())],
                model: BlockModelMesh { shape: CubeOrComplexMesh::Cube(faces_with(1, 800)) },
            },
            MultipartCase {
                predicate: vec![("facing".to_string(), "south".to_string())],
                model: BlockModelMesh {
                    shape: CubeOrComplexMesh::Complex(vec![faces_with(2, 900)]),
                },
            },
            MultipartCase {
                predicate: vec![],
                model: BlockModelMesh { shape: CubeOrComplexMesh::Cube(faces_with(1, 950)) },
            },
        ]),
        transparent_or_complex: true,
    }
}

fn multipart_manager() -> BlockManager<MV> {
    // Augment 0 faces north, augment 1 faces south; both carry the same rules.
    BlockManager {
        block_states: vec![
            BlockEntry {
                attributes: vec![("facing".to_string(), "north".to_string())],
                variant: multipart_variant(),
            },
            BlockEntry {
                attributes: vec![("facing".to_string(), "south".to_string())],
                variant: multipart_variant(),
            },
        ],
        blocks: vec!["minecraft:anvil".to_string()],
    }
}

#[test]
fn multipart_matches_only_satisfied_rules() {
    let bm = multipart_manager();
    let mut cells = vec![ChunkBlockState::Absent; CHUNK_VOLUME];
    cells[0] = ChunkBlockState::State(BlockstateKey { block: 0, augment: 0 });
    let provider = ChunkArrayProvider { cells };
    let north_layer =
        BakedChunkLayer::bake(&bm, (0, 0), &WorldTagMapper, &AcceptAllFilter, &provider);
    // facing=north: the north rule (cube, 6 faces of 1 vertex) and the
    // unconditional rule (6 more) match; the south rule does not.
    assert_eq!(north_layer.counts().nonstandard, 12);

    let mut cells = vec![ChunkBlockState::Absent; CHUNK_VOLUME];
    cells[0] = ChunkBlockState::State(BlockstateKey { block: 0, augment: 1 });
    let provider = ChunkArrayProvider { cells };
    let south_layer =
        BakedChunkLayer::bake(&bm, (0, 0), &WorldTagMapper, &AcceptAllFilter, &provider);
    // facing=south: the complex south rule (one group, 12 vertices) and the
    // unconditional rule (6) match instead: a different vertex count.
    assert_eq!(south_layer.counts().nonstandard, 18);
    assert_ne!(north_layer.counts().nonstandard, south_layer.counts().nonstandard);
}

#[test]
fn filtered_neighbor_exerts_no_culling_influence() {
    // Two adjacent opaque blocks under the same key set, but the pass's
    // filter admits only the first: the second contributes no geometry and
    // no culling influence, so the first block's face toward it renders.
    let bm = BlockManager {
        block_states: vec![
            BlockEntry { attributes: vec![], variant: cube_variant(faces_with(1, 60), false) },
            BlockEntry { attributes: vec![], variant: cube_variant(faces_with(1, 70), false) },
        ],
        blocks: vec!["stone".to_string()],
    };
    let key_a = BlockstateKey { block: 0, augment: 0 };
    let key_b = BlockstateKey { block: 0, augment: 1 };
    let mut cells = vec![ChunkBlockState::Absent; CHUNK_VOLUME];
    cells[0] = ChunkBlockState::State(key_a);
    cells[1] = ChunkBlockState::State(key_b);
    let provider = ChunkArrayProvider { cells };
    let filter = SingleKeyFilter { key: key_a };
    assert!(face_visible(&bm, &filter, &provider, 0, 0, 0, Direction::East));
    let layer = BakedChunkLayer::bake(&bm, (0, 0), &WorldTagMapper, &filter, &provider);
    // All six faces of the admitted block render; the filtered-out neighbor
    // emits nothing of its own.
    let counts = layer.counts();
    assert_eq!(counts.east, 1);
    assert_eq!(
        counts.top + counts.bottom + counts.north + counts.east + counts.south + counts.west,
        6
    );
}

#[test]
fn filter_skips_cells_entirely() {
    let bm = one_entry_manager(cube_variant(faces_with(1, 100), false));
    let provider = full_volume_provider(key0());
    let other_key = BlockstateKey { block: 7, augment: 0 };
    let layer = BakedChunkLayer::bake(
        &bm,
        (0, 0),
        &WorldTagMapper,
        &SingleKeyFilter { key: other_key },
        &provider,
    );
    let counts = layer.counts();
    assert_eq!(counts.top + counts.bottom + counts.north + counts.east + counts.south
        + counts.west + counts.nonstandard, 0);
}

#[test]
fn bake_is_deterministic() {
    let bm = multipart_manager();
    let provider = SimpleBlockstateProvider {
        state: ChunkBlockState::State(BlockstateKey { block: 0, augment: 0 }),
    };
    let a = BakedChunkLayer::bake(&bm, (1, 2), &WorldTagMapper, &AcceptAllFilter, &provider);
    let b = BakedChunkLayer::bake(&bm, (1, 2), &WorldTagMapper, &AcceptAllFilter, &provider);
    assert_eq!(a, b);
}

#[test]
fn bake_chunk_stores_one_layer_per_definition() {
    // Two registered blocks; each render pass filters for one of them.
    let bm = BlockManager {
        block_states: vec![
            BlockEntry { attributes: vec![], variant: cube_variant(faces_with(1, 20), false) },
            BlockEntry { attributes: vec![], variant: cube_variant(faces_with(2, 40), false) },
        ],
        blocks: vec!["stone".to_string(), "dirt".to_string()],
    };
    let key_a = BlockstateKey { block: 0, augment: 0 };
    let key_b = BlockstateKey { block: 0, augment: 1 };
    let mut cells = vec![ChunkBlockState::Absent; CHUNK_VOLUME];
    cells[0] = ChunkBlockState::State(key_a);
    cells[5] = ChunkBlockState::State(key_b);
    let provider = ChunkArrayProvider { cells };

    let layers = vec![
        LayerDefinition {
            name: "first".to_string(),
            filter: SingleKeyFilter { key: key_a },
            mapper: WorldTagMapper,
        },
        LayerDefinition {
            name: "second".to_string(),
            filter: SingleKeyFilter { key: key_b },
            mapper: WorldTagMapper,
        },
    ];
    let mut chunk: Chunk<WorldVertex<MV>> = Chunk::new((0, 0));
    chunk.bake_chunk(&layers, &bm, &provider);
    assert_eq!(chunk.baked.len(), 2);
    assert_eq!(chunk.baked[0].0, "first");
    assert_eq!(chunk.baked[1].0, "second");
    // Each pass bakes only its own block: one vertex per face of one cube
    // for the first layer, two per face for the second.
    assert_eq!(chunk.baked[0].1.counts().top, 1);
    assert_eq!(chunk.baked[1].1.counts().top, 2);
}

#[test]
fn anvil_end_to_end() {
    let bm = multipart_manager();
    let overrides = vec![("facing".to_string(), "north".to_string())];
    let (attrs, key) = bm
        .resolve_block_model(&"minecraft:anvil".to_string(), &overrides)
        .expect("anvil with facing=north must resolve");
    assert_eq!(key, BlockstateKey { block: 0, augment: 0 });
    assert_eq!(attrs[0], ("facing".to_string(), "north".to_string()));

    let provider = SimpleBlockstateProvider { state: ChunkBlockState::State(key) };
    let mut chunk: Chunk<WorldVertex<MV>> = Chunk::new((0, 0));
    let layers = vec![LayerDefinition {
        name: "terrain".to_string(),
        filter: AcceptAllFilter,
        mapper: WorldTagMapper,
    }];
    chunk.bake_chunk(&layers, &bm, &provider);
    assert_eq!(chunk.baked.len(), 1);
    assert_eq!(chunk.baked[0].0, "terrain");
    let layer = &chunk.baked[0].1;
    // Multipart geometry lands in the nonstandard bucket, matching the
    // anvil's facing=north rule set: 12 vertices per cell of the volume.
    assert_eq!(layer.counts().nonstandard, CHUNK_VOLUME * 12);
    assert!(layer.counts().nonstandard > 0);
    // The counts a GPU upload would record match the CPU-side bucket length.
    assert_eq!(layer.counts().nonstandard, layer.nonstandard.len());
    // Re-baking replaces stored layers wholesale.
    chunk.bake_chunk(&layers, &bm, &provider);
    assert_eq!(chunk.baked.len(), 1);
}
