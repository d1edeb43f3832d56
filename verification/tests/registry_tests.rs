use voxelmesh::model::{
    attrs_contain_pair, check_distinct_keys, eval_predicate, BlockModelMesh,
    BlockStateDefinitionType, BlockVariant, CubeOrComplexMesh, ModelFaces,
};
use voxelmesh::provider::{BlockStateProvider, ChunkArrayProvider, SimpleBlockstateProvider};
use voxelmesh::registry::{get_block, BlockEntry, BlockManager, RegistryError};
use voxelmesh::state::{BlockstateKey, ChunkBlockState, CHUNK_VOLUME};

fn empty_cube() -> BlockVariant<u8> {
    BlockVariant {
        kind: BlockStateDefinitionType::Variant(BlockModelMesh {
            shape: CubeOrComplexMesh::Cube(ModelFaces {
                north: None,
                east: None,
                south: None,
                west: None,
                up: None,
                down: None,
            }),
        }),
        transparent_or_complex: false,
    }
}

fn entry(attrs: Vec<(&str, &str)>) -> BlockEntry<u8> {
    BlockEntry {
        attributes: attrs
            .into_iter()
            .map(|(k, v)| (k.to_string(), v.to_string()))
            .collect(),
        variant: empty_cube(),
    }
}

fn manager() -> BlockManager<u8> {
    BlockManager {
        block_states: vec![
            entry(vec![("facing", "north"), ("lit", "false")]),
            entry(vec![("facing", "south"), ("lit", "false")]),
            entry(vec![("facing", "south"), ("lit", "true")]),
        ],
        blocks: vec!["furnace".to_string()],
    }
}

#[test]
fn packed_key_combines_block_and_augment() {
    let key = BlockstateKey { block: 2, augment: 5 };
    assert_eq!(key.pack(), 2 * 65536 + 5);
    assert_eq!(ChunkBlockState::State(key).packed_key(), Some(2 * 65536 + 5));
    assert_eq!(ChunkBlockState::Absent.packed_key(), None);
}

#[test]
fn get_block_resolves_registered_keys_only() {
    let bm = manager();
    let hit = get_block(&bm, &ChunkBlockState::State(BlockstateKey { block: 0, augment: 1 }));
    assert!(hit.is_some());
    assert_eq!(hit.unwrap().attributes[0], ("facing".to_string(), "south".to_string()));
    assert!(get_block(&bm, &ChunkBlockState::Absent).is_none());
    let miss = get_block(&bm, &ChunkBlockState::State(BlockstateKey { block: 1, augment: 0 }));
    assert!(miss.is_none());
}

#[test]
fn lookup_block_index_finds_name() {
    let bm = manager();
    assert_eq!(bm.lookup_block_index(&"furnace".to_string()), Some(0));
    assert_eq!(bm.lookup_block_index(&"anvil".to_string()), None);
}

#[test]
fn build_model_picks_first_matching_augment() {
    let bm = manager();
    let south = vec![("facing".to_string(), "south".to_string())];
    let (attrs, augment) = bm.build_model(0, &south).unwrap();
    assert_eq!(augment, 1);
    assert!(attrs.contains(&("lit".to_string(), "false".to_string())));

    let lit = vec![
        ("facing".to_string(), "south".to_string()),
        ("lit".to_string(), "true".to_string()),
    ];
    let (_, augment) = bm.build_model(0, &lit).unwrap();
    assert_eq!(augment, 2);
}

#[test]
fn build_model_reports_model_not_found() {
    let bm = manager();
    let west = vec![("facing".to_string(), "west".to_string())];
    assert_eq!(bm.build_model(0, &west), Err(RegistryError::ModelNotFound));
}

#[test]
fn resolve_block_model_reports_block_not_found() {
    let bm = manager();
    let none: Vec<(String, String)> = vec![];
    assert_eq!(
        bm.resolve_block_model(&"anvil".to_string(), &none).unwrap_err(),
        RegistryError::BlockNotFound
    );
}

#[test]
fn resolve_block_model_finds_key() {
    let bm = manager();
    let south = vec![("facing".to_string(), "south".to_string())];
    let (_, key) = bm.resolve_block_model(&"furnace".to_string(), &south).unwrap();
    assert_eq!(key, BlockstateKey { block: 0, augment: 1 });
}

#[test]
fn resolve_block_model_takes_first_name_and_lowest_augment() {
    // Two blocks registered under the same name; resolution must take the
    // first, and among its matching augments the lowest.
    let mut bm = manager();
    bm.blocks.push("furnace".to_string());
    let none: Vec<(String, String)> = vec![];
    let (_, key) = bm.resolve_block_model(&"furnace".to_string(), &none).unwrap();
    assert_eq!(key, BlockstateKey { block: 0, augment: 0 });
}

#[test]
fn predicate_evaluation() {
    let attrs = vec![
        ("facing".to_string(), "north".to_string()),
        ("lit".to_string(), "true".to_string()),
    ];
    assert!(attrs_contain_pair(&attrs, &"lit".to_string(), &"true".to_string()));
    assert!(!attrs_contain_pair(&attrs, &"lit".to_string(), &"false".to_string()));
    assert!(!attrs_contain_pair(&attrs, &"waterlogged".to_string(), &"true".to_string()));
    let pred = vec![("facing".to_string(), "north".to_string())];
    assert!(eval_predicate(&pred, &attrs));
    let both = vec![
        ("facing".to_string(), "north".to_string()),
        ("lit".to_string(), "false".to_string()),
    ];
    assert!(!eval_predicate(&both, &attrs));
    let empty: Vec<(String, String)> = vec![];
    assert!(eval_predicate(&empty, &attrs));
}

#[test]
fn distinct_keys_checker() {
    let good = vec![
        ("facing".to_string(), "north".to_string()),
        ("lit".to_string(), "north".to_string()),
    ];
    assert!(check_distinct_keys(&good));
    let dup = vec![
        ("facing".to_string(), "north".to_string()),
        ("facing".to_string(), "south".to_string()),
    ];
    assert!(!check_distinct_keys(&dup));
    let empty: Vec<(String, String)> = vec![];
    assert!(check_distinct_keys(&empty));
}

#[test]
fn registry_well_formedness_check() {
    assert!(manager().check_well_formed());
    let bad = BlockManager {
        block_states: vec![entry(vec![("facing", "north"), ("facing", "south")])],
        blocks: vec!["furnace".to_string()],
    };
    assert!(!bad.check_well_formed());
}

#[test]
fn simple_provider_is_uniform() {
    let key = BlockstateKey { block: 3, augment: 1 };
    let p = SimpleBlockstateProvider { state: ChunkBlockState::State(key) };
    assert_eq!(p.get_state(0, 0, 0), ChunkBlockState::State(key));
    assert_eq!(p.get_state(-1, 300, 99), ChunkBlockState::State(key));
    assert!(!p.is_section_empty(0));
    let absent = SimpleBlockstateProvider { state: ChunkBlockState::Absent };
    assert!(absent.is_section_empty(7));
}

#[test]
fn array_provider_bounds_and_sections() {
    let key = BlockstateKey { block: 0, augment: 0 };
    let mut cells = vec![ChunkBlockState::Absent; CHUNK_VOLUME];
    // Cell (x=3, y=20, z=5) sits in section 1 (y in 16..32).
    cells[20 * 256 + 5 * 16 + 3] = ChunkBlockState::State(key);
    let p = ChunkArrayProvider { cells };
    assert_eq!(p.get_state(3, 20, 5), ChunkBlockState::State(key));
    assert_eq!(p.get_state(4, 20, 5), ChunkBlockState::Absent);
    assert_eq!(p.get_state(-1, 20, 5), ChunkBlockState::Absent);
    assert_eq!(p.get_state(3, 256, 5), ChunkBlockState::Absent);
    assert_eq!(p.get_state(16, 20, 5), ChunkBlockState::Absent);
    assert!(p.is_section_empty(0));
    assert!(!p.is_section_empty(1));
    assert!(p.is_section_empty(2));
    // Out-of-range section indexes get the conservative answer.
    assert!(!p.is_section_empty(16));
    // A wrongly sized container answers conservatively as well.
    let bad = ChunkArrayProvider { cells: vec![ChunkBlockState::Absent; 10] };
    assert!(!bad.is_section_empty(0));
    assert_eq!(bad.get_state(0, 0, 0), ChunkBlockState::Absent);
}
