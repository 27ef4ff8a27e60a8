//! Model bookkeeping: each model's vertex and index data is flattened into
//! shared buffers through the Partition Table, and the resulting partitions
//! are turned into the per-model draw properties (counts and offsets) that
//! command recording consumes. Vertex payloads are opaque to this module; it
//! works on the tables.

use crate::linear_2d_vec::Linear2dVec;
use crate::partition::Partition;
use crate::textures::Textures;
use vstd::prelude::*;

verus! {

/// Index of a model among the color-shaded models.
#[derive(Clone, Copy, PartialEq, Eq, Structural, Debug)]
pub struct ColorModelIndex(pub usize);

/// Index of a model among the textured models.
#[derive(Clone, Copy, PartialEq, Eq, Structural, Debug)]
pub struct TexModelIndex(pub usize);

/// Where one color-shaded model's data lies in the flattened buffers.
#[derive(Clone, Copy, PartialEq, Eq, Structural, Debug)]
pub struct ColorModelProperties {
    pub vertex_count: u32,
    pub vertex_offset: i32,
    pub index_count: u32,
    pub index_offset: u32,
}

/// Where one textured model's data lies in the flattened buffers, and its
/// texture's byte range in the atlas.
#[derive(Clone, Copy, PartialEq, Eq, Structural, Debug)]
pub struct TexModelProperties {
    pub vertex_count: u32,
    pub vertex_offset: i32,
    pub index_count: u32,
    pub index_offset: u32,
    pub tex_size: u64,
    pub tex_offset: u64,
}

/// Draw properties of every model, color-shaded and textured.
pub struct ModelProperties {
    pub color: Vec<ColorModelProperties>,
    pub tex: Vec<TexModelProperties>,
}

/// The draw properties model `i` takes from its vertex and index partitions.
pub open spec fn spec_color_props(
    vparts: Seq<Partition<usize>>,
    iparts: Seq<Partition<usize>>,
    i: int,
) -> ColorModelProperties
    recommends
        0 <= i < vparts.len(),
        vparts.len() == iparts.len(),
{
    ColorModelProperties {
        vertex_count: vparts[i].size as u32,
        vertex_offset: vparts[i].offset as i32,
        index_count: iparts[i].size as u32,
        index_offset: iparts[i].offset as u32,
    }
}

/// Whether every partition's counts and offsets fit the draw-property field
/// domains.
pub open spec fn spec_parts_fit(
    vparts: Seq<Partition<usize>>,
    iparts: Seq<Partition<usize>>,
) -> bool {
    &&& forall|i: int|
        0 <= i < vparts.len() ==> (#[trigger] vparts[i]).size <= u32::MAX && vparts[i].offset
            <= i32::MAX
    &&& forall|i: int|
        0 <= i < iparts.len() ==> (#[trigger] iparts[i]).size <= u32::MAX && iparts[i].offset
            <= u32::MAX
}

/// The color-shaded models' flattened vertex and index data, one partition
/// per model, in load order.
pub struct ColorModels<V> {
    pub vertices: Linear2dVec<V>,
    pub indices: Linear2dVec<u16>,
}

impl<V> ColorModels<V> {
    /// Flattens per-model vertex and index chunks, one chunk per model, in
    /// load order.
    pub fn load(vertices: Vec<Vec<V>>, indices: Vec<Vec<u16>>) -> (r: Self)
        ensures
            r.vertices.wf(),
            r.indices.wf(),
            r.vertices.spec_parts().len() == vertices@.len(),
            r.indices.spec_parts().len() == indices@.len(),
            forall|i: int|
                0 <= i < vertices@.len() ==> (#[trigger] r.vertices.spec_parts()[i]).size
                    == vertices@[i]@.len(),
            forall|i: int|
                0 <= i < indices@.len() ==> (#[trigger] r.indices.spec_parts()[i]).size
                    == indices@[i]@.len(),
            forall|i: int|
                0 <= i < vertices@.len() ==> #[trigger] r.vertices.chunk(i) == vertices@[i]@,
            forall|i: int|
                0 <= i < indices@.len() ==> #[trigger] r.indices.chunk(i) == indices@[i]@,
    {
        Self {
            vertices: Linear2dVec::from_vec(vertices),
            indices: Linear2dVec::from_vec(indices),
        }
    }

    /// Turns the partition tables into per-model draw properties, in model
    /// order.
    pub fn into_properties(self) -> (r: Vec<ColorModelProperties>)
        requires
            self.vertices.spec_parts().len() == self.indices.spec_parts().len(),
            spec_parts_fit(self.vertices.spec_parts(), self.indices.spec_parts()),
        ensures
            r@.len() == self.vertices.spec_parts().len(),
            forall|i: int|
                0 <= i < r@.len() ==> #[trigger] r@[i] == spec_color_props(
                    self.vertices.spec_parts(),
                    self.indices.spec_parts(),
                    i,
                ),
    {
        let vparts = self.vertices.into_parts_iter();
        let iparts = self.indices.into_parts_iter();
        let mut out: Vec<ColorModelProperties> = Vec::new();
        let mut i: usize = 0;
        while i < vparts.len()
            invariant
                vparts@.len() == iparts@.len(),
                spec_parts_fit(vparts@, iparts@),
                i <= vparts@.len(),
                out@.len() == i,
                forall|k: int|
                    0 <= k < i ==> #[trigger] out@[k] == spec_color_props(vparts@, iparts@, k),
            decreases vparts@.len() - i,
        {
            out.push(
                ColorModelProperties {
                    vertex_count: vparts[i].size as u32,
                    vertex_offset: vparts[i].offset as i32,
                    index_count: iparts[i].size as u32,
                    index_offset: iparts[i].offset as u32,
                },
            );
            i = i + 1;
        }
        out
    }
}

/// The draw properties textured model `i` takes from its partitions and its
/// texture's byte range.
pub open spec fn spec_tex_props(
    vparts: Seq<Partition<usize>>,
    iparts: Seq<Partition<usize>>,
    tex_part: Partition<usize>,
    i: int,
) -> TexModelProperties
    recommends
        0 <= i < vparts.len(),
        vparts.len() == iparts.len(),
{
    TexModelProperties {
        vertex_count: vparts[i].size as u32,
        vertex_offset: vparts[i].offset as i32,
        index_count: iparts[i].size as u32,
        index_offset: iparts[i].offset as u32,
        tex_size: tex_part.size as u64,
        tex_offset: tex_part.offset as u64,
    }
}

/// The textured models' flattened vertex and index data, one partition per
/// model, in load order.
pub struct TexModels<V> {
    pub vertices: Linear2dVec<V>,
    pub indices: Linear2dVec<u16>,
}

impl<V> TexModels<V> {
    /// Flattens per-model vertex and index chunks, one chunk per model, in
    /// load order.
    pub fn load(vertices: Vec<Vec<V>>, indices: Vec<Vec<u16>>) -> (r: Self)
        ensures
            r.vertices.wf(),
            r.indices.wf(),
            r.vertices.spec_parts().len() == vertices@.len(),
            r.indices.spec_parts().len() == indices@.len(),
            forall|i: int|
                0 <= i < vertices@.len() ==> (#[trigger] r.vertices.spec_parts()[i]).size
                    == vertices@[i]@.len(),
            forall|i: int|
                0 <= i < indices@.len() ==> (#[trigger] r.indices.spec_parts()[i]).size
                    == indices@[i]@.len(),
            forall|i: int|
                0 <= i < vertices@.len() ==> #[trigger] r.vertices.chunk(i) == vertices@[i]@,
            forall|i: int|
                0 <= i < indices@.len() ==> #[trigger] r.indices.chunk(i) == indices@[i]@,
    {
        Self {
            vertices: Linear2dVec::from_vec(vertices),
            indices: Linear2dVec::from_vec(indices),
        }
    }

    /// Turns the partition tables into per-model draw properties, pairing
    /// model `i` with the texture `tex_indices[i]` of the atlas.
    pub fn into_properties(self, textures: &Textures, tex_indices: &Vec<usize>) -> (r: Vec<
        TexModelProperties,
    >)
        requires
            self.vertices.spec_parts().len() == self.indices.spec_parts().len(),
            tex_indices@.len() == self.vertices.spec_parts().len(),
            spec_parts_fit(self.vertices.spec_parts(), self.indices.spec_parts()),
            forall|i: int|
                0 <= i < tex_indices@.len() ==> #[trigger] tex_indices@[i]
                    < textures.spec_bytes().spec_parts().len(),
        ensures
            r@.len() == self.vertices.spec_parts().len(),
            forall|i: int|
                0 <= i < r@.len() ==> #[trigger] r@[i] == spec_tex_props(
                    self.vertices.spec_parts(),
                    self.indices.spec_parts(),
                    textures.spec_bytes().spec_parts()[tex_indices@[i] as int],
                    i,
                ),
    {
        let vparts = self.vertices.into_parts_iter();
        let iparts = self.indices.into_parts_iter();
        let mut out: Vec<TexModelProperties> = Vec::new();
        let mut i: usize = 0;
        while i < vparts.len()
            invariant
                vparts@.len() == iparts@.len(),
                tex_indices@.len() == vparts@.len(),
                spec_parts_fit(vparts@, iparts@),
                forall|k: int|
                    0 <= k < tex_indices@.len() ==> #[trigger] tex_indices@[k]
                        < textures.spec_bytes().spec_parts().len(),
                i <= vparts@.len(),
                out@.len() == i,
                forall|k: int|
                    0 <= k < i ==> #[trigger] out@[k] == spec_tex_props(
                        vparts@,
                        iparts@,
                        textures.spec_bytes().spec_parts()[tex_indices@[k] as int],
                        k,
                    ),
            decreases vparts@.len() - i,
        {
            let tex_part = textures.part(tex_indices[i]);
            out.push(
                TexModelProperties {
                    vertex_count: vparts[i].size as u32,
                    vertex_offset: vparts[i].offset as i32,
                    index_count: iparts[i].size as u32,
                    index_offset: iparts[i].offset as u32,
                    tex_size: tex_part.size as u64,
                    tex_offset: tex_part.offset as u64,
                },
            );
            i = i + 1;
        }
        out
    }
}

/// All models, color-shaded and textured.
pub struct Models<CV, TV> {
    pub color: ColorModels<CV>,
    pub tex: TexModels<TV>,
}

impl<CV, TV> Models<CV, TV> {
    /// Combines the two model families.
    pub fn load(color: ColorModels<CV>, tex: TexModels<TV>) -> (r: Self)
        ensures
            r.color == color,
            r.tex == tex,
    {
        Self { color, tex }
    }

    /// Turns every model's partitions into draw properties.
    pub fn into_properties(self, textures: &Textures, tex_indices: &Vec<usize>) -> (r:
        ModelProperties)
        requires
            self.color.vertices.spec_parts().len() == self.color.indices.spec_parts().len(),
            spec_parts_fit(self.color.vertices.spec_parts(), self.color.indices.spec_parts()),
            self.tex.vertices.spec_parts().len() == self.tex.indices.spec_parts().len(),
            tex_indices@.len() == self.tex.vertices.spec_parts().len(),
            spec_parts_fit(self.tex.vertices.spec_parts(), self.tex.indices.spec_parts()),
            forall|i: int|
                0 <= i < tex_indices@.len() ==> #[trigger] tex_indices@[i]
                    < textures.spec_bytes().spec_parts().len(),
        ensures
            r.color@.len() == self.color.vertices.spec_parts().len(),
            forall|i: int|
                0 <= i < r.color@.len() ==> #[trigger] r.color@[i] == spec_color_props(
                    self.color.vertices.spec_parts(),
                    self.color.indices.spec_parts(),
                    i,
                ),
            r.tex@.len() == self.tex.vertices.spec_parts().len(),
            forall|i: int|
                0 <= i < r.tex@.len() ==> #[trigger] r.tex@[i] == spec_tex_props(
                    self.tex.vertices.spec_parts(),
                    self.tex.indices.spec_parts(),
                    textures.spec_bytes().spec_parts()[tex_indices@[i] as int],
                    i,
                ),
    {
        ModelProperties {
            color: self.color.into_properties(),
            tex: self.tex.into_properties(textures, tex_indices),
        }
    }
}

} // verus!
