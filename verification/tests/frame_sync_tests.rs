use render_core::frame_sync::{
    AcquireOutcome, FatalError, FrameAction, FrameSync, PresentOutcome,
};
use render_core::FRAMES_IN_FLIGHT;

fn ok_acquire(image_index: u32) -> AcquireOutcome {
    AcquireOutcome::Success { image_index, suboptimal: false }
}

#[test]
fn plain_tick_action_order() {
    let mut sync = FrameSync::new();
    let out = sync
        .render_next_frame(ok_acquire(1), ok_acquire(0), PresentOutcome::Success)
        .unwrap();
    assert_eq!(
        out.actions,
        vec![
            FrameAction::WaitFence { slot: 1 },
            FrameAction::ResetFence { slot: 1 },
            FrameAction::AcquireImage { slot: 1 },
            FrameAction::RecordCommands { slot: 1 },
            FrameAction::SubmitCompute { slot: 1 },
            FrameAction::SubmitGraphics { slot: 1 },
            FrameAction::PresentImage { slot: 1, image_index: 1 },
        ]
    );
    assert_eq!(out.image_index, 1);
    assert_eq!(sync.last_in_use_i, 1);
    assert!(!sync.recreate_swapchain_next_frame);
}

#[test]
fn slots_rotate_across_ticks() {
    let mut sync = FrameSync::new();
    for tick in 0..6u32 {
        let out = sync
            .render_next_frame(ok_acquire(tick), ok_acquire(0), PresentOutcome::Success)
            .unwrap();
        let expected_slot = ((tick as usize) + 1) % FRAMES_IN_FLIGHT;
        assert_eq!(sync.last_in_use_i, expected_slot);
        assert!(out
            .actions
            .contains(&FrameAction::RecordCommands { slot: expected_slot }));
    }
}

#[test]
fn slot_reuse_waits_for_fence_across_many_frames() {
    // more frames than slots, with varied outcomes; the call-order log must
    // never show a slot re-recorded without a fence wait on it in between
    let mut sync = FrameSync::new();
    let mut log: Vec<FrameAction> = Vec::new();
    let inputs = [
        (ok_acquire(0), PresentOutcome::Success),
        (AcquireOutcome::Success { image_index: 1, suboptimal: true }, PresentOutcome::Success),
        (ok_acquire(2), PresentOutcome::Failure),
        (ok_acquire(0), PresentOutcome::Success),
        (AcquireOutcome::OutOfDate, PresentOutcome::Success),
        (ok_acquire(1), PresentOutcome::Success),
        (ok_acquire(2), PresentOutcome::Failure),
        (AcquireOutcome::OutOfDate, PresentOutcome::Success),
    ];
    assert!(inputs.len() > FRAMES_IN_FLIGHT);
    for (acquire, present) in inputs {
        let out = sync.render_next_frame(acquire, ok_acquire(7), present).unwrap();
        log.extend(out.actions);
    }
    let mut awaiting_wait = [false; FRAMES_IN_FLIGHT];
    for action in &log {
        match action {
            FrameAction::WaitFence { slot } => awaiting_wait[*slot] = false,
            FrameAction::RecordCommands { slot } => {
                assert!(
                    !awaiting_wait[*slot],
                    "slot re-recorded before its fence was observed signaled"
                );
                awaiting_wait[*slot] = true;
            }
            _ => {}
        }
    }
}

#[test]
fn suboptimal_acquire_schedules_one_recreation_next_tick() {
    let mut sync = FrameSync::new();
    let out = sync
        .render_next_frame(
            AcquireOutcome::Success { image_index: 0, suboptimal: true },
            ok_acquire(0),
            PresentOutcome::Success,
        )
        .unwrap();
    let recreates = out
        .actions
        .iter()
        .filter(|a| **a == FrameAction::RecreateSwapchain)
        .count();
    assert_eq!(recreates, 0);
    assert!(sync.recreate_swapchain_next_frame);

    let next = sync
        .render_next_frame(ok_acquire(0), ok_acquire(0), PresentOutcome::Success)
        .unwrap();
    let recreates = next
        .actions
        .iter()
        .filter(|a| **a == FrameAction::RecreateSwapchain)
        .count();
    assert_eq!(recreates, 1);
    assert!(!sync.recreate_swapchain_next_frame);
}

#[test]
fn out_of_date_acquire_recreates_and_retries_within_the_tick() {
    let mut sync = FrameSync::new();
    let out = sync
        .render_next_frame(AcquireOutcome::OutOfDate, ok_acquire(3), PresentOutcome::Success)
        .unwrap();
    let recreates = out
        .actions
        .iter()
        .filter(|a| **a == FrameAction::RecreateSwapchain)
        .count();
    assert_eq!(recreates, 1);
    let acquires = out
        .actions
        .iter()
        .filter(|a| matches!(a, FrameAction::AcquireImage { .. }))
        .count();
    assert_eq!(acquires, 2);
    assert_eq!(out.image_index, 3);
    assert!(!sync.recreate_swapchain_next_frame);
}

#[test]
fn present_failure_is_recoverable_and_schedules_recreation() {
    let mut sync = FrameSync::new();
    let r = sync.render_next_frame(ok_acquire(0), ok_acquire(0), PresentOutcome::Failure);
    assert!(r.is_ok());
    assert!(sync.recreate_swapchain_next_frame);
}

#[test]
fn window_resize_schedules_recreation() {
    let mut sync = FrameSync::new();
    sync.handle_window_resize();
    assert!(sync.recreate_swapchain_next_frame);
    let out = sync
        .render_next_frame(ok_acquire(0), ok_acquire(0), PresentOutcome::Success)
        .unwrap();
    assert_eq!(out.actions[0], FrameAction::WaitFence { slot: 0 });
    assert_eq!(out.actions[1], FrameAction::RecreateSwapchain);
    assert_eq!(out.actions[2], FrameAction::WaitFence { slot: 1 });
}

#[test]
fn second_out_of_date_acquire_is_fatal() {
    let mut sync = FrameSync::new();
    let r = sync.render_next_frame(
        AcquireOutcome::OutOfDate,
        AcquireOutcome::OutOfDate,
        PresentOutcome::Success,
    );
    assert_eq!(r.unwrap_err(), FatalError::AcquireFailedAfterRecreation);
    assert_eq!(sync.last_in_use_i, 0);
}

#[test]
fn suboptimal_retry_acquire_is_fatal() {
    let mut sync = FrameSync::new();
    let r = sync.render_next_frame(
        AcquireOutcome::OutOfDate,
        AcquireOutcome::Success { image_index: 0, suboptimal: true },
        PresentOutcome::Success,
    );
    assert_eq!(r.unwrap_err(), FatalError::SuboptimalAfterRecreation);
}

#[test]
fn out_of_date_tick_has_no_present_failure_abort() {
    // an out-of-date acquire recovers within the tick; the following tick
    // performs no further recreation and nothing is fatal
    let mut sync = FrameSync::new();
    sync.render_next_frame(AcquireOutcome::OutOfDate, ok_acquire(0), PresentOutcome::Success)
        .unwrap();
    let next = sync
        .render_next_frame(ok_acquire(0), ok_acquire(0), PresentOutcome::Success)
        .unwrap();
    let recreates = next
        .actions
        .iter()
        .filter(|a| **a == FrameAction::RecreateSwapchain)
        .count();
    assert_eq!(recreates, 0);
}

#[test]
fn compute_submits_before_graphics_before_present() {
    let mut sync = FrameSync::new();
    let out = sync
        .render_next_frame(ok_acquire(0), ok_acquire(0), PresentOutcome::Success)
        .unwrap();
    let pos = |needle: &dyn Fn(&FrameAction) -> bool| {
        out.actions.iter().position(|a| needle(a)).unwrap()
    };
    let record = pos(&|a| matches!(a, FrameAction::RecordCommands { .. }));
    let compute = pos(&|a| matches!(a, FrameAction::SubmitCompute { .. }));
    let graphics = pos(&|a| matches!(a, FrameAction::SubmitGraphics { .. }));
    let present = pos(&|a| matches!(a, FrameAction::PresentImage { .. }));
    assert!(record < compute && compute < graphics && graphics < present);
}
