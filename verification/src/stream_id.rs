//! Stream identifiers and stream counts.

use vstd::prelude::*;

verus! {

/// The identifier of one stream of a connection.
#[derive(Clone, Copy, Debug, PartialEq, Eq, Structural, Hash)]
pub struct StreamId(pub u64);

impl StreamId {
    pub fn new(id: u64) -> (r: Self)
        ensures
            r.0 == id,
    {
        StreamId(id)
    }

    pub fn as_u64(self) -> (r: u64)
        ensures
            r == self.0,
    {
        self.0
    }
}

/// A count of streams of one directionality: the number of streams opened so
/// far, or the number that may be opened.
#[derive(Clone, Copy, Debug, PartialEq, Eq, Structural, Hash)]
pub struct StreamIndex(pub u64);

impl StreamIndex {
    pub fn new(val: u64) -> (r: Self)
        ensures
            r.0 == val,
    {
        StreamIndex(val)
    }

    pub fn as_u64(self) -> (r: u64)
        ensures
            r == self.0,
    {
        self.0
    }
}

} // verus!
