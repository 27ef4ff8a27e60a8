//! The `{size, offset}` descriptor of one logical chunk's position inside a
//! larger flattened buffer or device-memory allocation.

use vstd::prelude::*;

verus! {

/// Position of one logical chunk inside a flattened whole: `size` elements
/// starting at `offset`. The unit (elements or bytes) is the container's.
#[derive(Clone, Copy, PartialEq, Eq, Structural, Debug)]
pub struct Partition<S> {
    pub size: S,
    pub offset: S,
}

impl<S> Partition<S> {
    pub fn new(size: S, offset: S) -> (r: Self)
        ensures
            r.size == size,
            r.offset == offset,
    {
        Self { size, offset }
    }

    pub fn deconstruct(self) -> (r: (S, S))
        ensures
            r.0 == self.size,
            r.1 == self.offset,
    {
        (self.size, self.offset)
    }
}

} // verus!
