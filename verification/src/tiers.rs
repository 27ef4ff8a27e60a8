//! The three buffer tiers. The constant tier packs vertex, index and static
//! instance data into one device-local block uploaded once through staging;
//! the host-writable tier holds one per-frame-slot region the CPU rewrites
//! each frame; the device-local merged tier holds, per frame slot, the
//! constant instances plus up to the configured maximum of dynamic ones.
//! Sizes are fixed at creation from that maximum; exceeding it is a caller
//! error rejected before any graphics-API state is touched.

use crate::models::ColorModelProperties;
use crate::partition::Partition;
use vstd::arithmetic::div_mod::lemma_fundamental_div_mod;
use vstd::prelude::*;

verus! {

/// Thread count of one compute workgroup of the instance-merge pass.
pub const COMPUTE_LOCAL_GROUP_SIZE: u32 = 64;

/// Byte size of one instance record (a 4-by-4 single-precision matrix).
pub const MATRIX_INSTANCE_BYTES: u64 = 64;

/// Byte size of one color vertex (position and color, three 32-bit
/// components each).
pub const COLOR_VERTEX_BYTES: u64 = 24;

/// Byte size of one textured vertex (position, normal and texture
/// coordinates: three, three and two 32-bit components).
pub const TEX_VERTEX_BYTES: u64 = 32;

/// Byte size of one vertex index.
pub const INDEX_BYTES: u64 = 2;

/// A contiguous range of instances of one model inside an instance buffer.
#[derive(Clone, Copy, PartialEq, Eq, Structural, Debug)]
pub struct InstProperties {
    pub inst_count: u32,
    pub inst_offset: u32,
    pub model_i: usize,
}

/// Byte layout of the constant tier: vertex data first (color models, then
/// textured), index data second, instance data third, each region laid out
/// color-first.
#[derive(Clone, Copy, PartialEq, Eq, Structural, Debug)]
pub struct ConstantTierLayout {
    pub vertex_size: u64,
    pub color_vertex_offset: u64,
    pub tex_vertex_offset: u64,
    pub index_size: u64,
    pub color_index_offset: u64,
    pub tex_index_offset: u64,
    pub inst_size: u64,
    pub color_inst_part: Partition<u64>,
    pub tex_inst_part: Partition<u64>,
    pub total_size: u64,
}

/// Computes the constant tier's byte layout from the element counts. Within
/// each of the three regions the color models' data starts at zero and the
/// textured models' data follows it immediately; the regions' sizes sum to
/// the total upload size.
pub fn constant_tier_layout(
    color_vertex_count: u64,
    tex_vertex_count: u64,
    color_index_count: u64,
    tex_index_count: u64,
    color_inst_count: u64,
    tex_inst_count: u64,
) -> (r: ConstantTierLayout)
    requires
        color_vertex_count <= u32::MAX,
        tex_vertex_count <= u32::MAX,
        color_index_count <= u32::MAX,
        tex_index_count <= u32::MAX,
        color_inst_count <= u32::MAX,
        tex_inst_count <= u32::MAX,
    ensures
        r.color_vertex_offset == 0,
        r.tex_vertex_offset == COLOR_VERTEX_BYTES * color_vertex_count,
        r.vertex_size == COLOR_VERTEX_BYTES * color_vertex_count + TEX_VERTEX_BYTES
            * tex_vertex_count,
        r.color_index_offset == 0,
        r.tex_index_offset == INDEX_BYTES * color_index_count,
        r.index_size == INDEX_BYTES * color_index_count + INDEX_BYTES * tex_index_count,
        r.color_inst_part == (Partition {
            size: (MATRIX_INSTANCE_BYTES * color_inst_count) as u64,
            offset: 0u64,
        }),
        r.tex_inst_part == (Partition {
            size: (MATRIX_INSTANCE_BYTES * tex_inst_count) as u64,
            offset: (MATRIX_INSTANCE_BYTES * color_inst_count) as u64,
        }),
        r.inst_size == MATRIX_INSTANCE_BYTES * color_inst_count + MATRIX_INSTANCE_BYTES
            * tex_inst_count,
        r.total_size == r.vertex_size + r.index_size + r.inst_size,
{
    let color_vertex_size = COLOR_VERTEX_BYTES * color_vertex_count;
    let tex_vertex_size = TEX_VERTEX_BYTES * tex_vertex_count;
    let vertex_size = color_vertex_size + tex_vertex_size;

    let color_index_size = INDEX_BYTES * color_index_count;
    let tex_index_size = INDEX_BYTES * tex_index_count;
    let index_size = color_index_size + tex_index_size;

    let color_inst_size = MATRIX_INSTANCE_BYTES * color_inst_count;
    let tex_inst_size = MATRIX_INSTANCE_BYTES * tex_inst_count;
    let inst_size = color_inst_size + tex_inst_size;

    ConstantTierLayout {
        vertex_size,
        color_vertex_offset: 0,
        tex_vertex_offset: color_vertex_size,
        index_size,
        color_index_offset: 0,
        tex_index_offset: color_index_size,
        inst_size,
        color_inst_part: Partition { size: color_inst_size, offset: 0 },
        tex_inst_part: Partition { size: tex_inst_size, offset: color_inst_size },
        total_size: vertex_size + index_size + inst_size,
    }
}

/// Builds per-model instance ranges from the partition table of the grouped
/// static objects: group `i` holds `parts[i].size` instances of model
/// `model_indices[i]`, starting at instance `parts[i].offset`.
pub fn build_instance_properties(
    parts: &Vec<Partition<usize>>,
    model_indices: &Vec<usize>,
) -> (r: Vec<InstProperties>)
    requires
        parts@.len() == model_indices@.len(),
        forall|i: int|
            0 <= i < parts@.len() ==> (#[trigger] parts@[i]).size <= u32::MAX && parts@[i].offset
                <= u32::MAX,
    ensures
        r@.len() == parts@.len(),
        forall|i: int|
            0 <= i < r@.len() ==> #[trigger] r@[i] == (InstProperties {
                inst_count: parts@[i].size as u32,
                inst_offset: parts@[i].offset as u32,
                model_i: model_indices@[i],
            }),
{
    let mut out: Vec<InstProperties> = Vec::new();
    let mut i: usize = 0;
    while i < parts.len()
        invariant
            parts@.len() == model_indices@.len(),
            forall|k: int|
                0 <= k < parts@.len() ==> (#[trigger] parts@[k]).size <= u32::MAX
                    && parts@[k].offset <= u32::MAX,
            i <= parts@.len(),
            out@.len() == i,
            forall|k: int|
                0 <= k < i ==> #[trigger] out@[k] == (InstProperties {
                    inst_count: parts@[k].size as u32,
                    inst_offset: parts@[k].offset as u32,
                    model_i: model_indices@[k],
                }),
        decreases parts@.len() - i,
    {
        out.push(
            InstProperties {
                inst_count: parts[i].size as u32,
                inst_offset: parts[i].offset as u32,
                model_i: model_indices[i],
            },
        );
        i = i + 1;
    }
    out
}

/// Why a tier request was refused.
#[derive(Clone, Copy, PartialEq, Eq, Structural, Debug)]
pub enum TierError {
    /// More dynamic instances were submitted than the tier was created for.
    MaxInstanceCountExceeded,
}

/// The mapped-memory copy the caller must perform: `byte_size` bytes into
/// the frame slot's region, from its start.
#[derive(Clone, Copy, PartialEq, Eq, Structural, Debug)]
pub struct WriteCommand {
    pub byte_offset: u64,
    pub byte_size: u64,
}

/// The host-writable tier: one buffer region per frame slot, rewritten by
/// the CPU each frame with the dynamic instance records, sized once from the
/// configured maximum instance count.
pub struct HostWritableTier {
    max_inst_count: u64,
}

impl HostWritableTier {
    /// The configured maximum number of dynamic instances.
    pub closed spec fn spec_max_inst_count(self) -> u64 {
        self.max_inst_count
    }

    /// Creates the tier for at most `max_dyn_inst_count` dynamic instances.
    pub fn new(max_dyn_inst_count: u64) -> (r: Self)
        requires
            max_dyn_inst_count <= u64::MAX / MATRIX_INSTANCE_BYTES,
        ensures
            r.spec_max_inst_count() == max_dyn_inst_count,
    {
        Self { max_inst_count: max_dyn_inst_count }
    }

    /// Byte size of one frame slot's region.
    pub fn slot_byte_size(&self) -> (r: u64)
        requires
            self.spec_max_inst_count() <= u64::MAX / MATRIX_INSTANCE_BYTES,
        ensures
            r == MATRIX_INSTANCE_BYTES * self.spec_max_inst_count(),
    {
        proof {
            assert(MATRIX_INSTANCE_BYTES * self.max_inst_count <= u64::MAX) by (nonlinear_arith)
                requires
                    self.max_inst_count <= u64::MAX / MATRIX_INSTANCE_BYTES,
            {
            }
        }
        MATRIX_INSTANCE_BYTES * self.max_inst_count
    }

    /// Checks a request to write `inst_count` dynamic instance records into
    /// a frame slot's region. The write is described exactly when the count
    /// is within the configured maximum; a larger count is refused before
    /// any graphics-API state is touched, never truncated.
    pub fn prepare_instance_write(&self, inst_count: u64) -> (r: Result<WriteCommand, TierError>)
        requires
            self.spec_max_inst_count() <= u64::MAX / MATRIX_INSTANCE_BYTES,
        ensures
            inst_count <= self.spec_max_inst_count() ==> r == Ok::<WriteCommand, TierError>(
                WriteCommand {
                    byte_offset: 0u64,
                    byte_size: (MATRIX_INSTANCE_BYTES * inst_count) as u64,
                },
            ),
            inst_count > self.spec_max_inst_count() ==> r == Err::<WriteCommand, TierError>(
                TierError::MaxInstanceCountExceeded,
            ),
    {
        if inst_count > self.max_inst_count {
            return Err(TierError::MaxInstanceCountExceeded);
        }
        proof {
            assert(MATRIX_INSTANCE_BYTES * inst_count <= u64::MAX) by (nonlinear_arith)
                requires
                    inst_count <= self.max_inst_count,
                    self.max_inst_count <= u64::MAX / MATRIX_INSTANCE_BYTES,
            {
            }
        }
        Ok(WriteCommand { byte_offset: 0, byte_size: MATRIX_INSTANCE_BYTES * inst_count })
    }
}

/// Byte size of one frame slot's merged-tier buffer: room for the constant
/// tier's instances plus the maximum supported dynamic instances.
pub fn merged_tier_slot_size(static_inst_count: u64, max_dyn_inst_count: u64) -> (r: u64)
    requires
        static_inst_count + max_dyn_inst_count <= u64::MAX / MATRIX_INSTANCE_BYTES,
    ensures
        r == MATRIX_INSTANCE_BYTES * (static_inst_count + max_dyn_inst_count),
{
    proof {
        assert(MATRIX_INSTANCE_BYTES * (static_inst_count + max_dyn_inst_count) <= u64::MAX)
            by (nonlinear_arith)
            requires
                static_inst_count + max_dyn_inst_count <= u64::MAX / MATRIX_INSTANCE_BYTES,
        {
        }
    }
    MATRIX_INSTANCE_BYTES * (static_inst_count + max_dyn_inst_count)
}

/// How many workgroups the instance-merge compute pass dispatches for
/// `inst_count` instances: one per full group of threads plus one more, so
/// the dispatched threads always cover every instance.
pub fn compute_dispatch_groups(inst_count: u32) -> (r: u32)
    ensures
        r == inst_count / COMPUTE_LOCAL_GROUP_SIZE + 1,
        r * COMPUTE_LOCAL_GROUP_SIZE > inst_count,
{
    proof {
        lemma_fundamental_div_mod(inst_count as int, COMPUTE_LOCAL_GROUP_SIZE as int);
    }
    inst_count / COMPUTE_LOCAL_GROUP_SIZE + 1
}

/// One mapped write into the staging allocation: `size` bytes at
/// `dst_offset` from the start of the mapped memory.
#[derive(Clone, Copy, PartialEq, Eq, Structural, Debug)]
pub struct StagingCopy {
    pub dst_offset: u64,
    pub size: u64,
}

/// The five mapped writes that fill the constant tier's staging buffers:
/// color vertices, textured vertices, color indices, textured indices and
/// instance records, each at its buffer's allocation offset plus its region
/// offset inside that buffer.
pub fn staging_copy_plan(
    layout: &ConstantTierLayout,
    vertex_mem_offset: u64,
    index_mem_offset: u64,
    inst_mem_offset: u64,
) -> (r: Vec<StagingCopy>)
    requires
        layout.color_vertex_offset == 0,
        layout.color_index_offset == 0,
        layout.tex_vertex_offset <= layout.vertex_size,
        layout.tex_index_offset <= layout.index_size,
        layout.color_inst_part.offset == 0,
        layout.tex_inst_part.offset == layout.color_inst_part.size,
        layout.color_inst_part.size + layout.tex_inst_part.size == layout.inst_size,
        vertex_mem_offset + layout.vertex_size <= u64::MAX,
        index_mem_offset + layout.index_size <= u64::MAX,
        inst_mem_offset + layout.inst_size <= u64::MAX,
    ensures
        r@.len() == 5,
        r@[0] == (StagingCopy {
            dst_offset: (vertex_mem_offset + layout.color_vertex_offset) as u64,
            size: layout.tex_vertex_offset,
        }),
        r@[1] == (StagingCopy {
            dst_offset: (vertex_mem_offset + layout.tex_vertex_offset) as u64,
            size: (layout.vertex_size - layout.tex_vertex_offset) as u64,
        }),
        r@[2] == (StagingCopy {
            dst_offset: (index_mem_offset + layout.color_index_offset) as u64,
            size: layout.tex_index_offset,
        }),
        r@[3] == (StagingCopy {
            dst_offset: (index_mem_offset + layout.tex_index_offset) as u64,
            size: (layout.index_size - layout.tex_index_offset) as u64,
        }),
        r@[4] == (StagingCopy { dst_offset: inst_mem_offset, size: layout.inst_size }),
    {
        let mut out: Vec<StagingCopy> = Vec::new();
        out.push(
            StagingCopy {
                dst_offset: vertex_mem_offset + layout.color_vertex_offset,
                size: layout.tex_vertex_offset,
            },
        );
        out.push(
            StagingCopy {
                dst_offset: vertex_mem_offset + layout.tex_vertex_offset,
                size: layout.vertex_size - layout.tex_vertex_offset,
            },
        );
        out.push(
            StagingCopy {
                dst_offset: index_mem_offset + layout.color_index_offset,
                size: layout.tex_index_offset,
            },
        );
        out.push(
            StagingCopy {
                dst_offset: index_mem_offset + layout.tex_index_offset,
                size: layout.index_size - layout.tex_index_offset,
            },
        );
        out.push(StagingCopy { dst_offset: inst_mem_offset, size: layout.inst_size });
        out
}

/// A byte range of a storage buffer, as a descriptor binds it.
#[derive(Clone, Copy, PartialEq, Eq, Structural, Debug)]
pub struct BufferRange {
    pub offset: u64,
    pub range: u64,
}

/// One source-to-destination binding pair of the instance-merge compute
/// pass.
#[derive(Clone, Copy, PartialEq, Eq, Structural, Debug)]
pub struct MergeBinding {
    pub source: BufferRange,
    pub dest: BufferRange,
}

/// The binding ranges that merge the constant tier's instance records into
/// the front of a frame slot's merged buffer: the whole static region, read
/// from its start and written at offset zero.
pub fn static_merge_binding(static_inst_size: u64) -> (r: MergeBinding)
    ensures
        r.source == (BufferRange { offset: 0u64, range: static_inst_size }),
        r.dest == (BufferRange { offset: 0u64, range: static_inst_size }),
{
    MergeBinding {
        source: BufferRange { offset: 0, range: static_inst_size },
        dest: BufferRange { offset: 0, range: static_inst_size },
    }
}

/// The binding ranges that merge this frame's dynamic instance records
/// behind the static ones: read from the host-writable slot's start, written
/// immediately after the static region, so the two destinations never
/// overlap.
pub fn dyn_merge_binding(static_inst_size: u64, dyn_inst_count: u64) -> (r: MergeBinding)
    requires
        dyn_inst_count <= u64::MAX / MATRIX_INSTANCE_BYTES,
    ensures
        r.source == (BufferRange {
            offset: 0u64,
            range: (MATRIX_INSTANCE_BYTES * dyn_inst_count) as u64,
        }),
        r.dest == (BufferRange {
            offset: static_inst_size,
            range: (MATRIX_INSTANCE_BYTES * dyn_inst_count) as u64,
        }),
{
    proof {
        assert(MATRIX_INSTANCE_BYTES * dyn_inst_count <= u64::MAX) by (nonlinear_arith)
            requires
                dyn_inst_count <= u64::MAX / MATRIX_INSTANCE_BYTES,
        {
        }
    }
    let dyn_size = MATRIX_INSTANCE_BYTES * dyn_inst_count;
    MergeBinding {
        source: BufferRange { offset: 0, range: dyn_size },
        dest: BufferRange { offset: static_inst_size, range: dyn_size },
    }
}

/// One indexed, instanced draw: the parameters command recording hands to
/// the graphics API for one model's instance range.
#[derive(Clone, Copy, PartialEq, Eq, Structural, Debug)]
pub struct DrawCall {
    pub index_count: u32,
    pub instance_count: u32,
    pub first_index: u32,
    pub vertex_offset: i32,
    pub first_instance: u32,
}

/// The draw call for instance range `inst` of the model table, with the
/// instance range shifted by `base_instance` (zero for the static ranges,
/// the static instance count for the dynamic ones).
pub open spec fn spec_draw_call(
    model_props: Seq<ColorModelProperties>,
    inst: InstProperties,
    base_instance: u32,
) -> DrawCall
    recommends
        inst.model_i < model_props.len(),
{
    DrawCall {
        index_count: model_props[inst.model_i as int].index_count,
        instance_count: inst.inst_count,
        first_index: model_props[inst.model_i as int].index_offset,
        vertex_offset: model_props[inst.model_i as int].vertex_offset,
        first_instance: (base_instance + inst.inst_offset) as u32,
    }
}

/// Builds the tick's draw list: one indexed, instanced draw per static
/// instance range, then one per dynamic range with the instance index
/// shifted past the static records, exactly as the merged tier lays them
/// out.
pub fn build_draw_calls(
    model_props: &Vec<ColorModelProperties>,
    static_inst: &Vec<InstProperties>,
    dyn_inst: &Vec<InstProperties>,
    static_inst_count: u32,
) -> (r: Vec<DrawCall>)
    requires
        forall|i: int|
            0 <= i < static_inst@.len() ==> (#[trigger] static_inst@[i]).model_i
                < model_props@.len(),
        forall|i: int|
            0 <= i < dyn_inst@.len() ==> (#[trigger] dyn_inst@[i]).model_i < model_props@.len(),
        forall|i: int|
            0 <= i < dyn_inst@.len() ==> static_inst_count + (#[trigger] dyn_inst@[i]).inst_offset
                <= u32::MAX,
    ensures
        r@.len() == static_inst@.len() + dyn_inst@.len(),
        forall|i: int|
            0 <= i < static_inst@.len() ==> #[trigger] r@[i] == spec_draw_call(
                model_props@,
                static_inst@[i],
                0,
            ),
        forall|i: int|
            0 <= i < dyn_inst@.len() ==> #[trigger] r@[static_inst@.len() + i] == spec_draw_call(
                model_props@,
                dyn_inst@[i],
                static_inst_count,
            ),
{
    let mut out: Vec<DrawCall> = Vec::new();
    let mut i: usize = 0;
    while i < static_inst.len()
        invariant
            forall|k: int|
                0 <= k < static_inst@.len() ==> (#[trigger] static_inst@[k]).model_i
                    < model_props@.len(),
            i <= static_inst@.len(),
            out@.len() == i,
            forall|k: int|
                0 <= k < i ==> #[trigger] out@[k] == spec_draw_call(
                    model_props@,
                    static_inst@[k],
                    0,
                ),
        decreases static_inst@.len() - i,
    {
        let inst = static_inst[i];
        let model_p = model_props[inst.model_i];
        out.push(
            DrawCall {
                index_count: model_p.index_count,
                instance_count: inst.inst_count,
                first_index: model_p.index_offset,
                vertex_offset: model_p.vertex_offset,
                first_instance: inst.inst_offset,
            },
        );
        i = i + 1;
    }
    let mut j: usize = 0;
    while j < dyn_inst.len()
        invariant
            forall|k: int|
                0 <= k < dyn_inst@.len() ==> (#[trigger] dyn_inst@[k]).model_i
                    < model_props@.len(),
            forall|k: int|
                0 <= k < dyn_inst@.len() ==> static_inst_count
                    + (#[trigger] dyn_inst@[k]).inst_offset <= u32::MAX,
            j <= dyn_inst@.len(),
            out@.len() == static_inst@.len() + j,
            forall|k: int|
                0 <= k < static_inst@.len() ==> #[trigger] out@[k] == spec_draw_call(
                    model_props@,
                    static_inst@[k],
                    0,
                ),
            forall|k: int|
                0 <= k < j ==> #[trigger] out@[static_inst@.len() + k] == spec_draw_call(
                    model_props@,
                    dyn_inst@[k],
                    static_inst_count,
                ),
        decreases dyn_inst@.len() - j,
    {
        let inst = dyn_inst[j];
        let model_p = model_props[inst.model_i];
        out.push(
            DrawCall {
                index_count: model_p.index_count,
                instance_count: inst.inst_count,
                first_index: model_p.index_offset,
                vertex_offset: model_p.vertex_offset,
                first_instance: static_inst_count + inst.inst_offset,
            },
        );
        j = j + 1;
    }
    out
}

} // verus!
