//! The shuffle cache: the blocks that this worker serves to others, each
//! under the coordinate of the output partition that it belongs to.

use std::collections::HashMap;
use vstd::prelude::*;

verus! {

/// Names one output partition of one shuffle: the shuffle, the input
/// partition that produced the data and the reduce partition that reads it.
pub type ShuffleCoordinate = (usize, usize, usize);

/// The cached blocks, found by shuffle, then input, then reduce partition.
pub struct ShuffleCache {
    blocks: HashMap<usize, HashMap<usize, HashMap<usize, Vec<u8>>>>,
}

impl View for ShuffleCache {
    type V = Map<ShuffleCoordinate, Seq<u8>>;

    closed spec fn view(&self) -> Map<ShuffleCoordinate, Seq<u8>> {
        Map::new(
            |key: ShuffleCoordinate|
                self.blocks@.contains_key(key.0) && self.blocks@[key.0]@.contains_key(key.1)
                    && self.blocks@[key.0]@[key.1]@.contains_key(key.2),
            |key: ShuffleCoordinate| self.blocks@[key.0]@[key.1]@[key.2]@,
        )
    }
}

impl ShuffleCache {
    /// A cache that holds nothing.
    pub fn new() -> (cache: Self)
        ensures
            cache@ == Map::<ShuffleCoordinate, Seq<u8>>::empty(),
    {
        ShuffleCache { blocks: HashMap::new() }
    }

    /// Puts `data` under `key`, in place of what was there, and returns
    /// what was there.
    pub fn insert(&mut self, key: ShuffleCoordinate, data: Vec<u8>) -> (previous: Option<Vec<u8>>)
        ensures
            final(self)@ == old(self)@.insert(key, data@),
            match previous {
                Some(block) => old(self)@.contains_key(key) && block@ == old(self)@[key],
                None => !old(self)@.contains_key(key),
            },
    {
        broadcast use vstd::std_specs::hash::group_hash_axioms;

        let mut by_input = match self.blocks.remove(&key.0) {
            Some(found) => found,
            None => HashMap::new(),
        };
        let mut by_reduce = match by_input.remove(&key.1) {
            Some(found) => found,
            None => HashMap::new(),
        };
        let previous = by_reduce.insert(key.2, data);
        by_input.insert(key.1, by_reduce);
        self.blocks.insert(key.0, by_input);
        previous
    }

    /// The block under `key`, if there is one.
    pub fn get(&self, key: &ShuffleCoordinate) -> (found: Option<&Vec<u8>>)
        ensures
            match found {
                Some(block) => self@.contains_key(*key) && block@ == self@[*key],
                None => !self@.contains_key(*key),
            },
    {
        broadcast use vstd::std_specs::hash::group_hash_axioms;

        match self.blocks.get(&key.0) {
            None => None,
            Some(by_input) => match by_input.get(&key.1) {
                None => None,
                Some(by_reduce) => by_reduce.get(&key.2),
            },
        }
    }
}

} // verus!
