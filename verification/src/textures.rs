//! The texture atlas: decoded texture byte blobs flattened into one upload
//! buffer, addressed through the Partition Table. Decoding image files is
//! the caller's; the table only owns bytes.

use crate::linear_2d_vec::Linear2dVec;
use crate::partition::Partition;
use vstd::prelude::*;

verus! {

/// Index of the first texture loaded into the atlas.
pub const NIKO_TEXTURE_INDEX: usize = 0;

/// Index of the second texture loaded into the atlas.
pub const BOX_TEXTURE_INDEX: usize = 1;

/// All texture bytes flattened into one buffer, one partition per texture,
/// in load order.
pub struct Textures {
    bytes: Linear2dVec<u8>,
}

impl Textures {
    /// The flattened atlas.
    pub closed spec fn spec_bytes(self) -> Linear2dVec<u8> {
        self.bytes
    }

    /// Builds the atlas from already-decoded texture byte blobs, one per
    /// texture, in load order.
    pub fn load(decoded: Vec<Vec<u8>>) -> (r: Self)
        ensures
            r.spec_bytes().wf(),
            r.spec_bytes().spec_parts().len() == decoded@.len(),
            forall|i: int|
                0 <= i < decoded@.len() ==> (#[trigger] r.spec_bytes().spec_parts()[i]).size
                    == decoded@[i]@.len(),
            forall|i: int|
                0 <= i < decoded@.len() ==> #[trigger] r.spec_bytes().chunk(i) == decoded@[i]@,
    {
        Textures { bytes: Linear2dVec::from_vec(decoded) }
    }

    /// The byte range of texture `i` inside the flattened atlas.
    pub fn part(&self, i: usize) -> (r: Partition<usize>)
        requires
            i < self.spec_bytes().spec_parts().len(),
        ensures
            r == self.spec_bytes().spec_parts()[i as int],
    {
        self.bytes.part(i)
    }

    /// The flattened atlas bytes, for the upload.
    pub fn data(&self) -> (r: &Vec<u8>)
        ensures
            r@ == self.spec_bytes().spec_data(),
    {
        self.bytes.iter()
    }
}

} // verus!
