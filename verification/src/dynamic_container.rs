//! A value paired with the partition table that describes how its contents
//! are laid out inside one device-memory allocation.

use crate::partition::Partition;
use vstd::prelude::*;

verus! {

/// Owns a payload (typically a buffer handle or its contents) together with
/// the byte ranges of the logical sub-buffers packed inside it.
pub struct DynamicContainer<D> {
    data: D,
    parts: Vec<Partition<u32>>,
}

impl<D> DynamicContainer<D> {
    /// The payload.
    pub closed spec fn spec_data(self) -> D {
        self.data
    }

    /// The byte ranges of the logical sub-buffers.
    pub closed spec fn spec_parts(self) -> Seq<Partition<u32>> {
        self.parts@
    }

    pub fn new(data: D, parts: Vec<Partition<u32>>) -> (r: Self)
        ensures
            r.spec_data() == data,
            r.spec_parts() == parts@,
    {
        Self { data, parts }
    }

    /// Read access to the payload.
    pub fn data(&self) -> (r: &D)
        ensures
            *r == self.spec_data(),
    {
        &self.data
    }

    /// Read access to the partition table.
    pub fn parts(&self) -> (r: &Vec<Partition<u32>>)
        ensures
            r@ == self.spec_parts(),
    {
        &self.parts
    }
}

} // verus!
