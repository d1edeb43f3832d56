//! The baker's output: six ordered per-direction vertex buckets plus one
//! "other" bucket for non-axis-aligned geometry, with merging of bakes.

use vstd::prelude::*;

use crate::model::Direction;

verus! {

/// The mathematical contents of a baked layer: one vertex sequence per
/// cardinal direction plus the "other" sequence.
#[verifier::ext_equal]
pub struct LayerContents<T> {
    pub top: Seq<T>,
    pub bottom: Seq<T>,
    pub north: Seq<T>,
    pub east: Seq<T>,
    pub south: Seq<T>,
    pub west: Seq<T>,
    pub nonstandard: Seq<T>,
}

impl<T> LayerContents<T> {
    /// Contents with every bucket empty.
    pub open spec fn empty() -> LayerContents<T> {
        LayerContents {
            top: Seq::empty(),
            bottom: Seq::empty(),
            north: Seq::empty(),
            east: Seq::empty(),
            south: Seq::empty(),
            west: Seq::empty(),
            nonstandard: Seq::empty(),
        }
    }

    /// The contents after appending each of `other`'s buckets onto the
    /// corresponding bucket of `self`, preserving relative order.
    pub open spec fn merged(self, other: LayerContents<T>) -> LayerContents<T> {
        LayerContents {
            top: self.top + other.top,
            bottom: self.bottom + other.bottom,
            north: self.north + other.north,
            east: self.east + other.east,
            south: self.south + other.south,
            west: self.west + other.west,
            nonstandard: self.nonstandard + other.nonstandard,
        }
    }

    /// The directional bucket facing `d`.
    pub open spec fn bucket(self, d: Direction) -> Seq<T> {
        match d {
            Direction::North => self.north,
            Direction::East => self.east,
            Direction::South => self.south,
            Direction::West => self.west,
            Direction::Up => self.top,
            Direction::Down => self.bottom,
        }
    }
}

/// Per-bucket vertex counts of a baked layer.
#[derive(Clone, Copy, Debug, PartialEq, Eq, Structural)]
pub struct LayerCounts {
    pub top: usize,
    pub bottom: usize,
    pub north: usize,
    pub east: usize,
    pub south: usize,
    pub west: usize,
    pub nonstandard: usize,
}

/// A baked chunk layer: transformed vertices partitioned into six cardinal
/// directions plus the `nonstandard` bucket for complex and multipart
/// geometry.
#[derive(Debug, PartialEq, Eq)]
pub struct BakedChunkLayer<T> {
    pub top: Vec<T>,
    pub bottom: Vec<T>,
    pub north: Vec<T>,
    pub east: Vec<T>,
    pub south: Vec<T>,
    pub west: Vec<T>,
    pub nonstandard: Vec<T>,
}

impl<T> View for BakedChunkLayer<T> {
    type V = LayerContents<T>;

    open spec fn view(&self) -> LayerContents<T> {
        LayerContents {
            top: self.top@,
            bottom: self.bottom@,
            north: self.north@,
            east: self.east@,
            south: self.south@,
            west: self.west@,
            nonstandard: self.nonstandard@,
        }
    }
}

/// Appends a copy of every element of `src` onto `dst`, in order.
pub fn append_copies<T: Copy>(dst: &mut Vec<T>, src: &Vec<T>)
    ensures
        final(dst)@ == old(dst)@ + src@,
{
    let mut i: usize = 0;
    while i < src.len()
        invariant
            0 <= i <= src@.len(),
            dst@ == old(dst)@ + src@.subrange(0, i as int),
        decreases src@.len() - i,
    {
        dst.push(src[i]);
        assert(old(dst)@ + src@.subrange(0, i as int) + seq![src@[i as int]] =~= old(dst)@
            + src@.subrange(0, i as int + 1));
        i += 1;
    }
    assert(old(dst)@ + src@.subrange(0, src@.len() as int) =~= old(dst)@ + src@);
}

impl<T> BakedChunkLayer<T> {
    /// Returns a layer with every bucket empty.
    pub fn new() -> (r: Self)
        ensures
            r@ == LayerContents::<T>::empty(),
    {
        Self {
            top: Vec::new(),
            bottom: Vec::new(),
            north: Vec::new(),
            east: Vec::new(),
            south: Vec::new(),
            west: Vec::new(),
            nonstandard: Vec::new(),
        }
    }

    /// Returns the vertex count of each bucket.
    pub fn counts(&self) -> (r: LayerCounts)
        ensures
            r.top == self@.top.len(),
            r.bottom == self@.bottom.len(),
            r.north == self@.north.len(),
            r.east == self@.east.len(),
            r.south == self@.south.len(),
            r.west == self@.west.len(),
            r.nonstandard == self@.nonstandard.len(),
    {
        LayerCounts {
            top: self.top.len(),
            bottom: self.bottom.len(),
            north: self.north.len(),
            east: self.east.len(),
            south: self.south.len(),
            west: self.west.len(),
            nonstandard: self.nonstandard.len(),
        }
    }
}

impl<T: Copy> BakedChunkLayer<T> {
    /// Merges another layer into this one: each of the other layer's buckets
    /// is appended onto the corresponding bucket of this layer, preserving
    /// relative order.
    pub fn extend(&mut self, other: &Self)
        ensures
            final(self)@ == old(self)@.merged(other@),
    {
        append_copies(&mut self.top, &other.top);
        append_copies(&mut self.bottom, &other.bottom);
        append_copies(&mut self.north, &other.north);
        append_copies(&mut self.east, &other.east);
        append_copies(&mut self.south, &other.south);
        append_copies(&mut self.west, &other.west);
        append_copies(&mut self.nonstandard, &other.nonstandard);
        assert(self@ =~= old(self)@.merged(other@));
    }
}

impl<T> Default for BakedChunkLayer<T> {
    /// Same as `new`: a layer with every bucket empty.
    fn default() -> (r: Self)
        ensures
            r@ == LayerContents::<T>::empty(),
    {
        Self::new()
    }
}

/// Merging is associative: combining bakes in either grouping yields the
/// same layer contents.
pub proof fn lemma_merge_associative<T>(a: LayerContents<T>, b: LayerContents<T>, c: LayerContents<T>)
    ensures
        a.merged(b).merged(c) == a.merged(b.merged(c)),
{
    assert(a.merged(b).merged(c) =~= a.merged(b.merged(c)));
}

/// Merging with an empty layer, on either side, is an identity operation.
pub proof fn lemma_merge_empty_identity<T>(a: LayerContents<T>)
    ensures
        a.merged(LayerContents::empty()) == a,
        LayerContents::empty().merged(a) == a,
{
    assert(a.merged(LayerContents::empty()) =~= a);
    assert(LayerContents::empty().merged(a) =~= a);
}

/// Each bucket of a merged layer holds exactly the sum of the two inputs'
/// vertex counts for that bucket.
pub proof fn lemma_merge_counts<T>(a: LayerContents<T>, b: LayerContents<T>)
    ensures
        a.merged(b).top.len() == a.top.len() + b.top.len(),
        a.merged(b).bottom.len() == a.bottom.len() + b.bottom.len(),
        a.merged(b).north.len() == a.north.len() + b.north.len(),
        a.merged(b).east.len() == a.east.len() + b.east.len(),
        a.merged(b).south.len() == a.south.len() + b.south.len(),
        a.merged(b).west.len() == a.west.len() + b.west.len(),
        a.merged(b).nonstandard.len() == a.nonstandard.len() + b.nonstandard.len(),
{
}

} // verus!
