//! Block model geometry: per-face vertex lists for cube models, arbitrary
//! face groups for complex models, and conditional multipart rules.

use vstd::prelude::*;

verus! {

/// The six cardinal directions a cube face can point in.
#[derive(Clone, Copy, Debug, PartialEq, Eq, Structural)]
pub enum Direction {
    North,
    East,
    South,
    West,
    Up,
    Down,
}

impl Direction {
    /// Offset toward the neighboring cell in this direction, x component.
    pub open spec fn dx(self) -> int {
        match self {
            Direction::East => 1,
            Direction::West => -1,
            _ => 0,
        }
    }

    /// Offset toward the neighboring cell in this direction, y component.
    pub open spec fn dy(self) -> int {
        match self {
            Direction::Up => 1,
            Direction::Down => -1,
            _ => 0,
        }
    }

    /// Offset toward the neighboring cell in this direction, z component.
    pub open spec fn dz(self) -> int {
        match self {
            Direction::South => 1,
            Direction::North => -1,
            _ => 0,
        }
    }
}

/// Six optional face-vertex lists, one per cardinal direction. `None` for a
/// direction means that face contributes no geometry at all.
pub struct ModelFaces<V> {
    pub north: Option<Vec<V>>,
    pub east: Option<Vec<V>>,
    pub south: Option<Vec<V>>,
    pub west: Option<Vec<V>>,
    pub up: Option<Vec<V>>,
    pub down: Option<Vec<V>>,
}

impl<V> ModelFaces<V> {
    /// The face list of this model pointing in direction `d`.
    pub open spec fn face(self, d: Direction) -> Option<Vec<V>> {
        match d {
            Direction::North => self.north,
            Direction::East => self.east,
            Direction::South => self.south,
            Direction::West => self.west,
            Direction::Up => self.up,
            Direction::Down => self.down,
        }
    }
}

/// The vertices of an optional face, empty when the face is `None`.
pub open spec fn opt_verts<V>(o: Option<Vec<V>>) -> Seq<V> {
    match o {
        Some(vs) => vs@,
        None => Seq::empty(),
    }
}

/// A block's mesh: either a cube with up to six cullable faces, or an
/// ordered sequence of arbitrary face groups with no cube-face semantics.
pub enum CubeOrComplexMesh<V> {
    Cube(ModelFaces<V>),
    Complex(Vec<ModelFaces<V>>),
}

/// A resolved model mesh for one block variant.
pub struct BlockModelMesh<V> {
    pub shape: CubeOrComplexMesh<V>,
}

/// One multipart rule: the model applies iff every `(key, value)` pair of the
/// predicate occurs in the block state's attribute mapping.
pub struct MultipartCase<V> {
    pub predicate: Vec<(String, String)>,
    pub model: BlockModelMesh<V>,
}

/// How a block state renders: a single resolved mesh, or a set of
/// conditional multipart rules evaluated against the state's attributes.
pub enum BlockStateDefinitionType<V> {
    Variant(BlockModelMesh<V>),
    Multipart(Vec<MultipartCase<V>>),
}

/// Registry entry describing how one block-state key renders.
/// `transparent_or_complex` is true when neighbors should render the faces
/// they share with this block (true transparency, or a non-cube shape that
/// culling reasoning does not apply to).
pub struct BlockVariant<V> {
    pub kind: BlockStateDefinitionType<V>,
    pub transparent_or_complex: bool,
}

/// Whether the attribute mapping `attrs` contains the pair `(key, value)`.
pub open spec fn attrs_contain(attrs: Seq<(String, String)>, key: Seq<char>, value: Seq<char>) -> bool {
    exists|j: int| 0 <= j < attrs.len() && attrs[j].0@ == key && attrs[j].1@ == value
}

/// Whether every pair of `predicate` occurs in `attrs`.
pub open spec fn predicate_matches(predicate: Seq<(String, String)>, attrs: Seq<(String, String)>) -> bool {
    forall|j: int| 0 <= j < predicate.len() ==> attrs_contain(attrs, predicate[j].0@, predicate[j].1@)
}

/// Well-formedness of an attribute mapping: no key occurs twice, so a key
/// determines its value, as in a map.
pub open spec fn distinct_attr_keys(attrs: Seq<(String, String)>) -> bool {
    forall|i: int, j: int|
        0 <= i < j < attrs.len() ==> #[trigger] attrs[i].0@ != #[trigger] attrs[j].0@
}

/// Under distinct keys an attribute key pins its value: one state cannot
/// satisfy two requirements that demand different values for the same key.
pub proof fn lemma_distinct_keys_unique_value(
    attrs: Seq<(String, String)>,
    key: Seq<char>,
    v1: Seq<char>,
    v2: Seq<char>,
)
    requires
        distinct_attr_keys(attrs),
        attrs_contain(attrs, key, v1),
        attrs_contain(attrs, key, v2),
    ensures
        v1 == v2,
{
    let i1 = choose|i: int| 0 <= i < attrs.len() && attrs[i].0@ == key && attrs[i].1@ == v1;
    let i2 = choose|i: int| 0 <= i < attrs.len() && attrs[i].0@ == key && attrs[i].1@ == v2;
    if i1 < i2 {
        assert(attrs[i1].0@ != attrs[i2].0@);
    } else if i2 < i1 {
        assert(attrs[i2].0@ != attrs[i1].0@);
    }
}

/// Returns whether no attribute key of `attrs` occurs twice.
pub fn check_distinct_keys(attrs: &Vec<(String, String)>) -> (r: bool)
    ensures
        r == distinct_attr_keys(attrs@),
{
    let mut i: usize = 0;
    while i < attrs.len()
        invariant
            0 <= i <= attrs@.len(),
            forall|a: int, b: int|
                0 <= a < b < attrs@.len() && a < i ==> #[trigger] attrs@[a].0@ != #[trigger] attrs@[b].0@,
        decreases attrs@.len() - i,
    {
        let mut j: usize = i + 1;
        while j < attrs.len()
            invariant
                0 <= i < j <= attrs@.len(),
                forall|b: int| i < b < j ==> attrs@[i as int].0@ != #[trigger] attrs@[b].0@,
            decreases attrs@.len() - j,
        {
            if attrs[i].0 == attrs[j].0 {
                return false;
            }
            j += 1;
        }
        i += 1;
    }
    true
}

/// Returns whether `attrs` holds the attribute `key` with value `value`.
pub fn attrs_contain_pair(attrs: &Vec<(String, String)>, key: &String, value: &String) -> (r: bool)
    ensures
        r == attrs_contain(attrs@, key@, value@),
{
    let mut j: usize = 0;
    while j < attrs.len()
        invariant
            0 <= j <= attrs@.len(),
            forall|k: int| 0 <= k < j ==> !(attrs@[k].0@ == key@ && attrs@[k].1@ == value@),
        decreases attrs@.len() - j,
    {
        if attrs[j].0 == *key && attrs[j].1 == *value {
            return true;
        }
        j += 1;
    }
    false
}

/// Returns whether every pair of `predicate` occurs in `attrs`.
pub fn eval_predicate(predicate: &Vec<(String, String)>, attrs: &Vec<(String, String)>) -> (r: bool)
    ensures
        r == predicate_matches(predicate@, attrs@),
{
    let mut j: usize = 0;
    while j < predicate.len()
        invariant
            0 <= j <= predicate@.len(),
            forall|k: int| 0 <= k < j ==> attrs_contain(attrs@, predicate@[k].0@, predicate@[k].1@),
        decreases predicate@.len() - j,
    {
        if !attrs_contain_pair(attrs, &predicate[j].0, &predicate[j].1) {
            return false;
        }
        j += 1;
    }
    true
}

} // verus!
