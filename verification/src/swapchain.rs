//! Swapchain lifecycle: choice of surface format, present mode, extent and
//! image count from queried capabilities, and the generation state machine
//! that retires (not destroys) the old chain on recreation until the caller
//! has proven, by a fence wait, that no submitted work still references it.

use vstd::prelude::*;

verus! {

/// Format code for 8-bit BGRA with sRGB encoding, the preferred surface
/// format.
pub const FORMAT_B8G8R8A8_SRGB: u32 = 50;

/// Color-space code for nonlinear sRGB, the preferred color space.
pub const COLOR_SPACE_SRGB_NONLINEAR: u32 = 0;

/// Present-mode code: immediate (may tear, lowest latency).
pub const PRESENT_MODE_IMMEDIATE: u32 = 0;

/// Present-mode code: mailbox (triple-buffered, no tearing).
pub const PRESENT_MODE_MAILBOX: u32 = 1;

/// Present-mode code: first-in first-out (always supported).
pub const PRESENT_MODE_FIFO: u32 = 2;

/// Present-mode code: relaxed first-in first-out.
pub const PRESENT_MODE_FIFO_RELAXED: u32 = 3;

/// A surface format paired with its color space, as enumeration codes.
#[derive(Clone, Copy, PartialEq, Eq, Structural, Debug)]
pub struct SurfaceFormat {
    pub format: u32,
    pub color_space: u32,
}

/// A two-dimensional pixel extent.
#[derive(Clone, Copy, PartialEq, Eq, Structural, Debug)]
pub struct Extent2d {
    pub width: u32,
    pub height: u32,
}

/// Queried surface capabilities. A `max_image_count` of zero means no upper
/// bound; a `current_extent.width` of `u32::MAX` means the surface takes
/// whatever extent the window provides, clamped to the min/max image extents.
#[derive(Clone, Copy, Debug)]
pub struct SurfaceCapabilities {
    pub min_image_count: u32,
    pub max_image_count: u32,
    pub current_extent: Extent2d,
    pub min_image_extent: Extent2d,
    pub max_image_extent: Extent2d,
}

/// Whether a surface format is the preferred one: sRGB-encoded BGRA in the
/// nonlinear sRGB color space.
pub open spec fn spec_format_preferred(f: SurfaceFormat) -> bool {
    f.format == FORMAT_B8G8R8A8_SRGB && f.color_space == COLOR_SPACE_SRGB_NONLINEAR
}

/// Picks the first preferred format from the queried list, or the first
/// listed format when none is preferred.
pub fn select_swapchain_image_format(formats: &Vec<SurfaceFormat>) -> (r: SurfaceFormat)
    requires
        formats@.len() > 0,
    ensures
        (forall|i: int|
            0 <= i < formats@.len() ==> !spec_format_preferred(#[trigger] formats@[i])) ==> r
            == formats@[0],
        (exists|i: int| 0 <= i < formats@.len() && spec_format_preferred(#[trigger] formats@[i]))
            ==> exists|i: int|
            {
                &&& 0 <= i < formats@.len()
                &&& r == formats@[i]
                &&& spec_format_preferred(#[trigger] formats@[i])
                &&& forall|j: int| 0 <= j < i ==> !spec_format_preferred(#[trigger] formats@[j])
            },
{
    let mut i: usize = 0;
    while i < formats.len()
        invariant
            i <= formats@.len(),
            forall|j: int| 0 <= j < i ==> !spec_format_preferred(#[trigger] formats@[j]),
        decreases formats@.len() - i,
    {
        let f = formats[i];
        if f.format == FORMAT_B8G8R8A8_SRGB && f.color_space == COLOR_SPACE_SRGB_NONLINEAR {
            return f;
        }
        i = i + 1;
    }
    formats[0]
}

/// The present mode the selection rules pick from an available list: with
/// vsync disabled, immediate is best and relaxed FIFO second; mailbox is
/// preferred otherwise, and FIFO is the always-supported fallback.
pub open spec fn spec_select_present_mode(modes: Seq<u32>, vsync: bool) -> u32 {
    if !vsync && modes.contains(PRESENT_MODE_IMMEDIATE) {
        PRESENT_MODE_IMMEDIATE
    } else if !vsync && modes.contains(PRESENT_MODE_FIFO_RELAXED) {
        PRESENT_MODE_FIFO_RELAXED
    } else if modes.contains(PRESENT_MODE_MAILBOX) {
        PRESENT_MODE_MAILBOX
    } else {
        PRESENT_MODE_FIFO
    }
}

/// Whether a present-mode list contains a given mode.
fn modes_contain(modes: &Vec<u32>, mode: u32) -> (r: bool)
    ensures
        r == modes@.contains(mode),
{
    let mut i: usize = 0;
    while i < modes.len()
        invariant
            i <= modes@.len(),
            forall|j: int| 0 <= j < i ==> modes@[j] != mode,
        decreases modes@.len() - i,
    {
        if modes[i] == mode {
            proof {
                assert(modes@[i as int] == mode);
            }
            return true;
        }
        i = i + 1;
    }
    false
}

/// Picks the present mode from the queried list following the selection
/// rules, with `vsync` saying whether vertical synchronization is wanted.
pub fn select_swapchain_present_mode(present_modes: &Vec<u32>, vsync: bool) -> (r: u32)
    ensures
        r == spec_select_present_mode(present_modes@, vsync),
{
    if !vsync {
        if modes_contain(present_modes, PRESENT_MODE_IMMEDIATE) {
            return PRESENT_MODE_IMMEDIATE;
        }
        if modes_contain(present_modes, PRESENT_MODE_FIFO_RELAXED) {
            return PRESENT_MODE_FIFO_RELAXED;
        }
    }
    if modes_contain(present_modes, PRESENT_MODE_MAILBOX) {
        return PRESENT_MODE_MAILBOX;
    }
    PRESENT_MODE_FIFO
}

/// `x` clamped into `[lo, hi]`.
pub open spec fn spec_clamp(x: u32, lo: u32, hi: u32) -> u32
    recommends
        lo <= hi,
{
    if x < lo {
        lo
    } else if x > hi {
        hi
    } else {
        x
    }
}

/// The extent the new swapchain must take: the surface's own current extent
/// when it is fixed, else the window size clamped to the supported range.
pub open spec fn spec_swapchain_extent(caps: SurfaceCapabilities, window: Extent2d) -> Extent2d {
    if caps.current_extent.width != u32::MAX {
        caps.current_extent
    } else {
        Extent2d {
            width: spec_clamp(
                window.width,
                caps.min_image_extent.width,
                caps.max_image_extent.width,
            ),
            height: spec_clamp(
                window.height,
                caps.min_image_extent.height,
                caps.max_image_extent.height,
            ),
        }
    }
}

/// Computes the new swapchain's extent from the queried capabilities and the
/// window size.
pub fn get_swapchain_extent(caps: &SurfaceCapabilities, window: Extent2d) -> (r: Extent2d)
    ensures
        r == spec_swapchain_extent(*caps, window),
{
    if caps.current_extent.width != u32::MAX {
        caps.current_extent
    } else {
        let width = if window.width < caps.min_image_extent.width {
            caps.min_image_extent.width
        } else if window.width > caps.max_image_extent.width {
            caps.max_image_extent.width
        } else {
            window.width
        };
        let height = if window.height < caps.min_image_extent.height {
            caps.min_image_extent.height
        } else if window.height > caps.max_image_extent.height {
            caps.max_image_extent.height
        } else {
            window.height
        };
        Extent2d { width, height }
    }
}

/// How many images the new swapchain asks for: one more than the minimum,
/// capped by the maximum when the surface has one.
pub open spec fn spec_swapchain_image_count(caps: SurfaceCapabilities) -> int {
    if caps.max_image_count > 0 {
        if caps.min_image_count + 1 < caps.max_image_count {
            caps.min_image_count + 1
        } else {
            caps.max_image_count as int
        }
    } else {
        caps.min_image_count + 1
    }
}

/// Computes the image count requested from the new swapchain.
pub fn swapchain_image_count(caps: &SurfaceCapabilities) -> (r: u32)
    requires
        caps.min_image_count < u32::MAX,
    ensures
        r == spec_swapchain_image_count(*caps),
{
    if caps.max_image_count > 0 {
        let wanted = caps.min_image_count + 1;
        if wanted < caps.max_image_count {
            wanted
        } else {
            caps.max_image_count
        }
    } else {
        caps.min_image_count + 1
    }
}

/// Everything a swapchain build needs that is decided rather than queried:
/// the chosen surface format, the extent, the number of images requested and
/// the present mode.
#[derive(Clone, Copy, PartialEq, Eq, Structural, Debug)]
pub struct SwapchainPlan {
    pub format: SurfaceFormat,
    pub extent: Extent2d,
    pub image_count: u32,
    pub present_mode: u32,
}

/// Makes every decision of a swapchain build or rebuild in one step, from
/// the queried capabilities, format and present-mode lists and the window
/// size.
pub fn plan_swapchain(
    caps: &SurfaceCapabilities,
    formats: &Vec<SurfaceFormat>,
    present_modes: &Vec<u32>,
    window: Extent2d,
    vsync: bool,
) -> (r: SwapchainPlan)
    requires
        formats@.len() > 0,
        caps.min_image_count < u32::MAX,
    ensures
        r.extent == spec_swapchain_extent(*caps, window),
        r.image_count == spec_swapchain_image_count(*caps),
        r.present_mode == spec_select_present_mode(present_modes@, vsync),
        (forall|i: int|
            0 <= i < formats@.len() ==> !spec_format_preferred(#[trigger] formats@[i]))
            ==> r.format == formats@[0],
        (exists|i: int| 0 <= i < formats@.len() && spec_format_preferred(#[trigger] formats@[i]))
            ==> spec_format_preferred(r.format),
{
    SwapchainPlan {
        format: select_swapchain_image_format(formats),
        extent: get_swapchain_extent(caps, window),
        image_count: swapchain_image_count(caps),
        present_mode: select_swapchain_present_mode(present_modes, vsync),
    }
}

/// The observable identity of one swapchain generation: its image format and
/// extent. A new generation is built wholesale on every recreation.
#[derive(Clone, Copy, PartialEq, Eq, Structural, Debug)]
pub struct SwapchainGeneration {
    pub format: u32,
    pub extent: Extent2d,
}

/// What changed across a recreation; dependent objects rebuild only when
/// their inputs did.
#[derive(Clone, Copy, PartialEq, Eq, Structural, Debug)]
pub struct RecreationChanges {
    pub format: bool,
    pub extent: bool,
}

/// The diff a recreation reports: which of format and extent differ between
/// the retiring generation and the new one.
pub open spec fn spec_recreation_changes(
    cur: SwapchainGeneration,
    new_gen: SwapchainGeneration,
) -> RecreationChanges {
    RecreationChanges {
        format: new_gen.format != cur.format,
        extent: new_gen.extent != cur.extent,
    }
}

/// What dependent objects a recreation diff forces to rebuild, each only
/// when necessary: the pipelines follow any extent change, and the render
/// pass any format change.
#[derive(Clone, Copy, PartialEq, Eq, Structural, Debug)]
pub struct RebuildPlan {
    pub render_pass: bool,
    pub pipelines: bool,
}

/// The rebuild decisions taken from a recreation diff: each dependent
/// object rebuilds exactly when its own input changed.
pub open spec fn spec_rebuild_plan(changes: RecreationChanges) -> RebuildPlan {
    RebuildPlan { render_pass: changes.format, pipelines: changes.extent }
}

/// Computes which dependent objects must be rebuilt after a recreation.
pub fn rebuild_plan(changes: RecreationChanges) -> (r: RebuildPlan)
    ensures
        r == spec_rebuild_plan(changes),
{
    RebuildPlan { render_pass: changes.format, pipelines: changes.extent }
}

/// Law of no-op recreation: recreating against an unchanged generation
/// reports no changes, and a no-change diff rebuilds neither the render pass
/// nor the pipelines.
pub proof fn lemma_noop_recreation_rebuilds_nothing(g: SwapchainGeneration)
    ensures
        spec_recreation_changes(g, g) == (RecreationChanges { format: false, extent: false }),
        spec_rebuild_plan(spec_recreation_changes(g, g)) == (RebuildPlan {
            render_pass: false,
            pipelines: false,
        }),
{
}

/// The generation state machine. At most two generations exist at once:
/// `current`, in active use, and `old`, retired on recreation and destroyed
/// only once the caller has fence-proven it unused.
pub struct Swapchains {
    current: SwapchainGeneration,
    old: Option<SwapchainGeneration>,
}

impl Swapchains {
    /// The generation in active use.
    pub closed spec fn spec_current(self) -> SwapchainGeneration {
        self.current
    }

    /// The retired generation still pending destruction, if any.
    pub closed spec fn spec_old(self) -> Option<SwapchainGeneration> {
        self.old
    }

    /// Starts the state machine with one live generation and nothing retired.
    pub fn new(initial: SwapchainGeneration) -> (r: Self)
        ensures
            r.spec_current() == initial,
            r.spec_old() is None,
    {
        Self { current: initial, old: None }
    }

    /// Replaces the current generation, parking the previous one as retired,
    /// and reports exactly which of format and extent changed.
    pub fn recreate_swapchain(&mut self, new_gen: SwapchainGeneration) -> (r: RecreationChanges)
        ensures
            final (self).spec_current() == new_gen,
            final (self).spec_old() == Some(old(self).spec_current()),
            r == spec_recreation_changes(old(self).spec_current(), new_gen),
    {
        let changes = RecreationChanges {
            format: new_gen.format != self.current.format,
            extent: new_gen.extent.width != self.current.extent.width
                || new_gen.extent.height != self.current.extent.height,
        };
        self.old = Some(self.current);
        self.current = new_gen;
        changes
    }

    /// Drops the retired generation; the caller must have proven (by a fence
    /// wait) that no submitted work still references it.
    pub fn destroy_old(&mut self)
        ensures
            final (self).spec_current() == old(self).spec_current(),
            final (self).spec_old() is None,
    {
        self.old = None;
    }

    /// Whether a retired generation is still pending destruction.
    pub fn has_old(&self) -> (r: bool)
        ensures
            r == (self.spec_old() is Some),
    {
        self.old.is_some()
    }

    /// The current generation's format.
    pub fn get_format(&self) -> (r: u32)
        ensures
            r == self.spec_current().format,
    {
        self.current.format
    }

    /// The current generation's extent.
    pub fn get_extent(&self) -> (r: Extent2d)
        ensures
            r == self.spec_current().extent,
    {
        self.current.extent
    }
}

} // verus!
