//! The single-slot cache of the most recent line.

use vstd::prelude::*;
use crate::line::copy_line;

verus! {

/// Holds the latest line, or nothing before the first update. Setting
/// replaces the whole line: a reader sees the old line or the new one.
pub struct LatestValueCache {
    value: Option<Vec<u8>>,
}

impl View for LatestValueCache {
    type V = Option<Seq<u8>>;

    closed spec fn view(&self) -> Option<Seq<u8>> {
        match self.value {
            Some(v) => Some(v@),
            None => None,
        }
    }
}

impl LatestValueCache {
    /// An empty cache.
    pub fn new() -> (r: LatestValueCache)
        ensures
            r@ == Option::<Seq<u8>>::None,
    {
        LatestValueCache { value: None }
    }

    /// Replaces the cached line with `line`.
    pub fn set(&mut self, line: &Vec<u8>)
        ensures
            final(self)@ == Some(line@),
    {
        self.value = Some(copy_line(line));
    }

    /// The cached line, if one was set.
    pub fn get(&self) -> (r: Option<Vec<u8>>)
        ensures
            r is Some <==> self@ is Some,
            r is Some ==> self@ == Some(r->Some_0@),
    {
        match &self.value {
            Some(v) => Some(copy_line(v)),
            None => None,
        }
    }
}

} // verus!
