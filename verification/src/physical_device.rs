//! Physical-device selection decisions: classifying queue families into the
//! graphics, compute and transfer roles, and ranking device types so the
//! most capable device wins. The queries that enumerate devices and their
//! properties are the caller's; the choices are made here, on plain values.

use vstd::prelude::*;

verus! {

/// Queue-capability bit: graphics work.
pub const QUEUE_FLAG_GRAPHICS: u32 = 1;

/// Queue-capability bit: compute work.
pub const QUEUE_FLAG_COMPUTE: u32 = 2;

/// Queue-capability bit: transfer work.
pub const QUEUE_FLAG_TRANSFER: u32 = 4;

/// Device-type code: unrecognized hardware.
pub const DEVICE_TYPE_OTHER: u32 = 0;

/// Device-type code: GPU integrated with the CPU.
pub const DEVICE_TYPE_INTEGRATED_GPU: u32 = 1;

/// Device-type code: discrete GPU.
pub const DEVICE_TYPE_DISCRETE_GPU: u32 = 2;

/// Device-type code: virtualized GPU.
pub const DEVICE_TYPE_VIRTUAL_GPU: u32 = 3;

/// Device-type code: CPU acting as the device.
pub const DEVICE_TYPE_CPU: u32 = 4;

/// What one queue family reports: its capability bits and whether it can
/// present to the surface.
#[derive(Clone, Copy, Debug)]
pub struct QueueFamilyInfo {
    pub queue_flags: u32,
    pub supports_surface: bool,
}

/// The chosen queue family for each role. A dedicated transfer family is
/// optional; transfer work falls back to the graphics family without one.
#[derive(Clone, Copy, Debug)]
pub struct QueueFamilyIndices {
    pub graphics: u32,
    pub compute: u32,
    pub transfer: Option<u32>,
}

/// Why a device cannot serve: it offers no presenting graphics family (the
/// device is skipped), or graphics without any separate compute family (a
/// configuration the renderer cannot drive).
#[derive(Clone, Copy, PartialEq, Eq, Structural, Debug)]
pub enum QueueFamilyError {
    NoGraphicsQueueFamily,
    NoComputeQueueFamily,
}

/// A family serves graphics when it has the graphics bit and can present.
pub open spec fn spec_is_graphics_family(f: QueueFamilyInfo) -> bool {
    (f.queue_flags & QUEUE_FLAG_GRAPHICS) != 0 && f.supports_surface
}

/// A family serves compute when it is not taken for graphics and has the
/// compute bit.
pub open spec fn spec_is_compute_family(f: QueueFamilyInfo) -> bool {
    !spec_is_graphics_family(f) && (f.queue_flags & QUEUE_FLAG_COMPUTE) != 0
}

/// A family serves transfer when it is taken for neither graphics nor
/// compute and has the transfer bit.
pub open spec fn spec_is_transfer_family(f: QueueFamilyInfo) -> bool {
    !spec_is_graphics_family(f) && (f.queue_flags & QUEUE_FLAG_COMPUTE) == 0 && (f.queue_flags
        & QUEUE_FLAG_TRANSFER) != 0
}

/// Walks the device's queue families and assigns each role its last
/// matching family. The device is usable only with both a presenting
/// graphics family and a separate compute family; a dedicated transfer
/// family is optional.
pub fn find_queue_family_indices(families: &Vec<QueueFamilyInfo>) -> (r: Result<
    QueueFamilyIndices,
    QueueFamilyError,
>)
    requires
        families@.len() <= u32::MAX,
    ensures
        match r {
            Ok(qfi) => {
                &&& qfi.graphics < families@.len()
                &&& spec_is_graphics_family(families@[qfi.graphics as int])
                &&& forall|j: int|
                    qfi.graphics < j < families@.len() ==> !spec_is_graphics_family(
                        #[trigger] families@[j],
                    )
                &&& qfi.compute < families@.len()
                &&& spec_is_compute_family(families@[qfi.compute as int])
                &&& forall|j: int|
                    qfi.compute < j < families@.len() ==> !spec_is_compute_family(
                        #[trigger] families@[j],
                    )
                &&& match qfi.transfer {
                    Some(t) => {
                        &&& t < families@.len()
                        &&& spec_is_transfer_family(families@[t as int])
                        &&& forall|j: int|
                            t < j < families@.len() ==> !spec_is_transfer_family(
                                #[trigger] families@[j],
                            )
                    },
                    None => forall|j: int|
                        0 <= j < families@.len() ==> !spec_is_transfer_family(
                            #[trigger] families@[j],
                        ),
                }
            },
            Err(QueueFamilyError::NoGraphicsQueueFamily) => forall|j: int|
                0 <= j < families@.len() ==> !spec_is_graphics_family(#[trigger] families@[j]),
            Err(QueueFamilyError::NoComputeQueueFamily) => {
                &&& exists|j: int|
                    0 <= j < families@.len() && spec_is_graphics_family(#[trigger] families@[j])
                &&& forall|j: int|
                    0 <= j < families@.len() ==> !spec_is_compute_family(#[trigger] families@[j])
            },
        },
{
    let mut graphics: Option<u32> = None;
    let mut compute: Option<u32> = None;
    let mut transfer: Option<u32> = None;
    let mut i: usize = 0;
    while i < families.len()
        invariant
            families@.len() <= u32::MAX,
            i <= families@.len(),
            match graphics {
                Some(g) => g < i && spec_is_graphics_family(families@[g as int]) && forall|j: int|
                    g < j < i ==> !spec_is_graphics_family(#[trigger] families@[j]),
                None => forall|j: int|
                    0 <= j < i ==> !spec_is_graphics_family(#[trigger] families@[j]),
            },
            match compute {
                Some(c) => c < i && spec_is_compute_family(families@[c as int]) && forall|j: int|
                    c < j < i ==> !spec_is_compute_family(#[trigger] families@[j]),
                None => forall|j: int|
                    0 <= j < i ==> !spec_is_compute_family(#[trigger] families@[j]),
            },
            match transfer {
                Some(t) => t < i && spec_is_transfer_family(families@[t as int]) && forall|j: int|
                    t < j < i ==> !spec_is_transfer_family(#[trigger] families@[j]),
                None => forall|j: int|
                    0 <= j < i ==> !spec_is_transfer_family(#[trigger] families@[j]),
            },
        decreases families@.len() - i,
    {
        let f = families[i];
        if (f.queue_flags & QUEUE_FLAG_GRAPHICS) != 0 && f.supports_surface {
            graphics = Some(i as u32);
        } else if (f.queue_flags & QUEUE_FLAG_COMPUTE) != 0 {
            compute = Some(i as u32);
        } else if (f.queue_flags & QUEUE_FLAG_TRANSFER) != 0 {
            transfer = Some(i as u32);
        }
        i = i + 1;
    }
    match graphics {
        Some(g) => match compute {
            Some(c) => Ok(QueueFamilyIndices { graphics: g, compute: c, transfer }),
            None => Err(QueueFamilyError::NoComputeQueueFamily),
        },
        None => Err(QueueFamilyError::NoGraphicsQueueFamily),
    }
}

/// The preference rank of a device type, lower being better: discrete GPUs
/// first, then integrated, virtual, CPU and unrecognized hardware. `None`
/// marks a code outside the known enumeration, which the caller must treat
/// as a configuration error.
pub fn rank_device_type(device_type: u32) -> (r: Option<u32>)
    ensures
        device_type == DEVICE_TYPE_DISCRETE_GPU ==> r == Some(0u32),
        device_type == DEVICE_TYPE_INTEGRATED_GPU ==> r == Some(1u32),
        device_type == DEVICE_TYPE_VIRTUAL_GPU ==> r == Some(2u32),
        device_type == DEVICE_TYPE_CPU ==> r == Some(3u32),
        device_type == DEVICE_TYPE_OTHER ==> r == Some(4u32),
        device_type > DEVICE_TYPE_CPU ==> r is None,
{
    if device_type == DEVICE_TYPE_DISCRETE_GPU {
        Some(0)
    } else if device_type == DEVICE_TYPE_INTEGRATED_GPU {
        Some(1)
    } else if device_type == DEVICE_TYPE_VIRTUAL_GPU {
        Some(2)
    } else if device_type == DEVICE_TYPE_CPU {
        Some(3)
    } else if device_type == DEVICE_TYPE_OTHER {
        Some(4)
    } else {
        None
    }
}

/// Picks the first device with the minimal rank from the usable devices'
/// ranks, or `None` when none is usable.
pub fn select_best_device(ranks: &Vec<u32>) -> (r: Option<usize>)
    ensures
        ranks@.len() == 0 ==> r is None,
        ranks@.len() > 0 ==> match r {
            Some(best) => {
                &&& best < ranks@.len()
                &&& forall|j: int| 0 <= j < best ==> #[trigger] ranks@[j] > ranks@[best as int]
                &&& forall|j: int|
                    0 <= j < ranks@.len() ==> #[trigger] ranks@[j] >= ranks@[best as int]
            },
            None => false,
        },
{
    if ranks.len() == 0 {
        return None;
    }
    let mut best: usize = 0;
    let mut i: usize = 1;
    while i < ranks.len()
        invariant
            ranks@.len() > 0,
            best < i <= ranks@.len(),
            forall|j: int| 0 <= j < best ==> #[trigger] ranks@[j] > ranks@[best as int],
            forall|j: int| 0 <= j < i ==> #[trigger] ranks@[j] >= ranks@[best as int],
        decreases ranks@.len() - i,
    {
        if ranks[i] < ranks[best] {
            best = i;
        }
        i = i + 1;
    }
    Some(best)
}

} // verus!
