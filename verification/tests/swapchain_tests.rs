use render_core::swapchain::{
    get_swapchain_extent, plan_swapchain, rebuild_plan, select_swapchain_image_format,
    select_swapchain_present_mode, swapchain_image_count, Extent2d, RecreationChanges,
    SurfaceCapabilities, SurfaceFormat, SwapchainGeneration, Swapchains,
    COLOR_SPACE_SRGB_NONLINEAR, FORMAT_B8G8R8A8_SRGB, PRESENT_MODE_FIFO,
    PRESENT_MODE_FIFO_RELAXED, PRESENT_MODE_IMMEDIATE, PRESENT_MODE_MAILBOX,
};

fn caps(
    min_count: u32,
    max_count: u32,
    current: (u32, u32),
    min_extent: (u32, u32),
    max_extent: (u32, u32),
) -> SurfaceCapabilities {
    SurfaceCapabilities {
        min_image_count: min_count,
        max_image_count: max_count,
        current_extent: Extent2d { width: current.0, height: current.1 },
        min_image_extent: Extent2d { width: min_extent.0, height: min_extent.1 },
        max_image_extent: Extent2d { width: max_extent.0, height: max_extent.1 },
    }
}

#[test]
fn preferred_format_is_selected_when_listed() {
    let formats = vec![
        SurfaceFormat { format: 37, color_space: 0 },
        SurfaceFormat { format: FORMAT_B8G8R8A8_SRGB, color_space: COLOR_SPACE_SRGB_NONLINEAR },
        SurfaceFormat { format: FORMAT_B8G8R8A8_SRGB, color_space: 7 },
    ];
    let chosen = select_swapchain_image_format(&formats);
    assert_eq!(chosen.format, FORMAT_B8G8R8A8_SRGB);
    assert_eq!(chosen.color_space, COLOR_SPACE_SRGB_NONLINEAR);
}

#[test]
fn first_format_is_the_fallback() {
    let formats = vec![
        SurfaceFormat { format: 37, color_space: 5 },
        SurfaceFormat { format: 44, color_space: 0 },
    ];
    let chosen = select_swapchain_image_format(&formats);
    assert_eq!(chosen.format, 37);
    assert_eq!(chosen.color_space, 5);
}

#[test]
fn present_mode_without_vsync_prefers_immediate() {
    let modes = vec![PRESENT_MODE_FIFO, PRESENT_MODE_MAILBOX, PRESENT_MODE_IMMEDIATE];
    assert_eq!(select_swapchain_present_mode(&modes, false), PRESENT_MODE_IMMEDIATE);
}

#[test]
fn present_mode_without_vsync_falls_back_to_relaxed_fifo() {
    let modes = vec![PRESENT_MODE_FIFO, PRESENT_MODE_FIFO_RELAXED, PRESENT_MODE_MAILBOX];
    assert_eq!(select_swapchain_present_mode(&modes, false), PRESENT_MODE_FIFO_RELAXED);
}

#[test]
fn present_mode_with_vsync_prefers_mailbox() {
    let modes = vec![PRESENT_MODE_FIFO, PRESENT_MODE_IMMEDIATE, PRESENT_MODE_MAILBOX];
    assert_eq!(select_swapchain_present_mode(&modes, true), PRESENT_MODE_MAILBOX);
}

#[test]
fn present_mode_fifo_is_always_available() {
    let modes = vec![PRESENT_MODE_FIFO];
    assert_eq!(select_swapchain_present_mode(&modes, true), PRESENT_MODE_FIFO);
    assert_eq!(select_swapchain_present_mode(&vec![], false), PRESENT_MODE_FIFO);
}

#[test]
fn fixed_surface_extent_wins_over_window_size() {
    let c = caps(2, 8, (800, 600), (1, 1), (4096, 4096));
    let e = get_swapchain_extent(&c, Extent2d { width: 1024, height: 768 });
    assert_eq!((e.width, e.height), (800, 600));
}

#[test]
fn window_extent_is_clamped_to_supported_range() {
    let c = caps(2, 8, (u32::MAX, 600), (100, 100), (1920, 1080));
    let small = get_swapchain_extent(&c, Extent2d { width: 10, height: 2000 });
    assert_eq!((small.width, small.height), (100, 1080));
    let inside = get_swapchain_extent(&c, Extent2d { width: 640, height: 480 });
    assert_eq!((inside.width, inside.height), (640, 480));
}

#[test]
fn image_count_is_min_plus_one_capped_by_max() {
    assert_eq!(swapchain_image_count(&caps(2, 3, (1, 1), (1, 1), (1, 1))), 3);
    assert_eq!(swapchain_image_count(&caps(2, 2, (1, 1), (1, 1), (1, 1))), 2);
    assert_eq!(swapchain_image_count(&caps(2, 0, (1, 1), (1, 1), (1, 1))), 3);
}

#[test]
fn recreation_reports_what_changed() {
    let g1 = SwapchainGeneration { format: 50, extent: Extent2d { width: 800, height: 600 } };
    let g2 = SwapchainGeneration { format: 44, extent: Extent2d { width: 800, height: 600 } };
    let mut chains = Swapchains::new(g1);
    let changes = chains.recreate_swapchain(g2);
    assert!(changes.format);
    assert!(!changes.extent);
    assert!(chains.has_old());
    assert_eq!(chains.get_format(), 44);
    chains.destroy_old();
    assert!(!chains.has_old());
    assert_eq!(chains.get_format(), 44);
}

#[test]
fn noop_recreation_is_idempotent() {
    let g = SwapchainGeneration { format: 50, extent: Extent2d { width: 800, height: 600 } };
    let mut chains = Swapchains::new(g);
    let changes = chains.recreate_swapchain(g);
    assert_eq!(changes, RecreationChanges { format: false, extent: false });
    let plan = rebuild_plan(changes);
    assert!(!plan.render_pass);
    assert!(!plan.pipelines);
    assert_eq!(chains.get_extent(), Extent2d { width: 800, height: 600 });
}

#[test]
fn rebuild_follows_the_diff() {
    let both = rebuild_plan(RecreationChanges { format: true, extent: true });
    assert!(both.render_pass);
    assert!(both.pipelines);
    // the pipelines depend on the extent, the render pass on the format
    let extent_only = rebuild_plan(RecreationChanges { format: false, extent: true });
    assert!(!extent_only.render_pass);
    assert!(extent_only.pipelines);
    let format_only = rebuild_plan(RecreationChanges { format: true, extent: false });
    assert!(format_only.render_pass);
    assert!(!format_only.pipelines);
}

#[test]
fn swapchain_plan_combines_all_decisions() {
    let c = caps(2, 8, (u32::MAX, 0), (100, 100), (1920, 1080));
    let formats = vec![
        SurfaceFormat { format: 37, color_space: 0 },
        SurfaceFormat { format: FORMAT_B8G8R8A8_SRGB, color_space: COLOR_SPACE_SRGB_NONLINEAR },
    ];
    let modes = vec![PRESENT_MODE_FIFO, PRESENT_MODE_IMMEDIATE];
    let plan = plan_swapchain(&c, &formats, &modes, Extent2d { width: 800, height: 600 }, false);
    assert_eq!(plan.format.format, FORMAT_B8G8R8A8_SRGB);
    assert_eq!((plan.extent.width, plan.extent.height), (800, 600));
    assert_eq!(plan.image_count, 3);
    assert_eq!(plan.present_mode, PRESENT_MODE_IMMEDIATE);
}
