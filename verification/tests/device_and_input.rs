use render_core::counters::{
    FPSCounter, GPULattency, FPS_PRINT_INTERVAL_MICROS, GPU_PRINT_INTERVAL_MICROS,
};
use render_core::keys::{
    key_event_action, AppAction, KeyCode, KeyState, Keys, MovementIntent,
};
use render_core::physical_device::{
    find_queue_family_indices, rank_device_type, select_best_device, QueueFamilyError,
    QueueFamilyInfo, DEVICE_TYPE_CPU, DEVICE_TYPE_DISCRETE_GPU, DEVICE_TYPE_INTEGRATED_GPU,
    DEVICE_TYPE_OTHER, DEVICE_TYPE_VIRTUAL_GPU, QUEUE_FLAG_COMPUTE, QUEUE_FLAG_GRAPHICS,
    QUEUE_FLAG_TRANSFER,
};
use render_core::utility::{contains_all, i8_array_to_string, StringDecodeError};

fn family(flags: u32, surface: bool) -> QueueFamilyInfo {
    QueueFamilyInfo { queue_flags: flags, supports_surface: surface }
}

#[test]
fn queue_families_are_assigned_by_role() {
    let families = vec![
        family(QUEUE_FLAG_GRAPHICS | QUEUE_FLAG_COMPUTE, true),
        family(QUEUE_FLAG_COMPUTE, false),
        family(QUEUE_FLAG_TRANSFER, false),
    ];
    let qfi = find_queue_family_indices(&families).unwrap();
    assert_eq!(qfi.graphics, 0);
    assert_eq!(qfi.compute, 1);
    assert_eq!(qfi.transfer, Some(2));
}

#[test]
fn later_matching_family_wins() {
    let families = vec![
        family(QUEUE_FLAG_GRAPHICS, true),
        family(QUEUE_FLAG_GRAPHICS, true),
        family(QUEUE_FLAG_COMPUTE, false),
    ];
    let qfi = find_queue_family_indices(&families).unwrap();
    assert_eq!(qfi.graphics, 1);
    assert_eq!(qfi.transfer, None);
}

#[test]
fn graphics_without_surface_support_does_not_count() {
    let families = vec![family(QUEUE_FLAG_GRAPHICS, false), family(QUEUE_FLAG_COMPUTE, false)];
    let r = find_queue_family_indices(&families);
    assert_eq!(r.unwrap_err(), QueueFamilyError::NoGraphicsQueueFamily);
}

#[test]
fn missing_compute_family_is_reported() {
    let families = vec![family(QUEUE_FLAG_GRAPHICS, true), family(QUEUE_FLAG_TRANSFER, false)];
    let r = find_queue_family_indices(&families);
    assert_eq!(r.unwrap_err(), QueueFamilyError::NoComputeQueueFamily);
}

#[test]
fn device_types_rank_discrete_first() {
    assert_eq!(rank_device_type(DEVICE_TYPE_DISCRETE_GPU), Some(0));
    assert_eq!(rank_device_type(DEVICE_TYPE_INTEGRATED_GPU), Some(1));
    assert_eq!(rank_device_type(DEVICE_TYPE_VIRTUAL_GPU), Some(2));
    assert_eq!(rank_device_type(DEVICE_TYPE_CPU), Some(3));
    assert_eq!(rank_device_type(DEVICE_TYPE_OTHER), Some(4));
    assert_eq!(rank_device_type(99), None);
}

#[test]
fn best_device_is_first_with_minimal_rank() {
    assert_eq!(select_best_device(&vec![1, 0, 4, 0]), Some(1));
    assert_eq!(select_best_device(&vec![2]), Some(0));
    assert_eq!(select_best_device(&vec![]), None);
}

#[test]
fn zero_terminated_name_is_decoded() {
    let arr: Vec<i8> = vec![86, 75, 95, 75, 72, 82, 0, 33, 33];
    let s = i8_array_to_string(&arr).unwrap();
    assert_eq!(s, "VK_KHR");
}

#[test]
fn name_without_terminator_is_decoded_whole() {
    let arr: Vec<i8> = vec![97, 98, 99];
    assert_eq!(i8_array_to_string(&arr).unwrap(), "abc");
}

#[test]
fn invalid_utf8_name_is_refused() {
    let arr: Vec<i8> = vec![-61, 0];
    assert_eq!(i8_array_to_string(&arr).unwrap_err(), StringDecodeError::InvalidUtf8);
}

#[test]
fn contains_all_accepts_a_superset() {
    let available = vec![
        String::from("VK_KHR_swapchain"),
        String::from("VK_KHR_surface"),
        String::from("VK_EXT_debug_utils"),
    ];
    let wanted = vec![String::from("VK_KHR_surface"), String::from("VK_KHR_swapchain")];
    assert!(contains_all(&available, &wanted).is_ok());
}

#[test]
fn contains_all_reports_the_first_missing_item() {
    let available = vec![10u64, 20, 30];
    let wanted = vec![20u64, 40, 50];
    let missing = contains_all(&available, &wanted).unwrap_err();
    assert_eq!(*missing, 40);
}

#[test]
fn keys_start_released_and_follow_events() {
    let mut keys = Keys::new();
    assert_eq!(keys.a, KeyState::Released);
    keys.update_from_event(KeyCode::W, KeyState::Pressed);
    keys.update_from_event(KeyCode::Space, KeyState::Pressed);
    assert_eq!(keys.w, KeyState::Pressed);
    assert_eq!(keys.space, KeyState::Pressed);
    assert_eq!(keys.s, KeyState::Released);
    keys.update_from_event(KeyCode::W, KeyState::Released);
    assert_eq!(keys.w, KeyState::Released);
}

#[test]
fn untracked_keys_change_nothing() {
    let mut keys = Keys::new();
    let before = keys;
    keys.update_from_event(KeyCode::Other, KeyState::Pressed);
    assert_eq!(keys, before);
}

#[test]
fn key_state_reports_presses_and_differences() {
    assert!(KeyState::Pressed.is_pressed());
    assert!(!KeyState::Released.is_pressed());
    assert!(KeyState::Pressed.differs(KeyState::Released));
    assert!(!KeyState::Pressed.differs(KeyState::Pressed));
    assert_eq!(KeyState::default(), KeyState::Released);
}

#[test]
fn fps_counter_reports_after_the_interval() {
    let mut counter = FPSCounter::new();
    assert_eq!(counter.try_print(FPS_PRINT_INTERVAL_MICROS), None);
    assert_eq!(counter.try_print(16_000), Some(16_000));
    // one interval was consumed; the remainder stays accumulated
    assert_eq!(counter.try_print(0), None);
}

#[test]
fn gpu_latency_reports_the_average_wait() {
    let mut counter = GPULattency::new(1_000);
    // two quiet frames collect latencies without reporting
    assert_eq!(counter.try_print(100, 2_000), None);
    assert_eq!(counter.try_print(300, 3_000), None);
    // the interval elapses: average of 100, 300 and 200 is 200
    let due = counter.try_print(200, 3_000 + GPU_PRINT_INTERVAL_MICROS);
    assert_eq!(due, Some(200));
    // collection starts over afterwards
    assert_eq!(counter.try_print(999, 4_000 + GPU_PRINT_INTERVAL_MICROS), None);
}

#[test]
fn movement_follows_exclusive_key_pairs() {
    let mut keys = Keys::new();
    assert_eq!(keys.movement_intent(), MovementIntent { lateral: 0, forward: 0, vertical: 0 });
    keys.update_from_event(KeyCode::A, KeyState::Pressed);
    keys.update_from_event(KeyCode::W, KeyState::Pressed);
    keys.update_from_event(KeyCode::Space, KeyState::Pressed);
    assert_eq!(keys.movement_intent(), MovementIntent { lateral: -1, forward: 1, vertical: 1 });
    // an opposed pair cancels
    keys.update_from_event(KeyCode::D, KeyState::Pressed);
    assert_eq!(keys.movement_intent().lateral, 0);
    keys.update_from_event(KeyCode::A, KeyState::Released);
    assert_eq!(keys.movement_intent().lateral, 1);
}

#[test]
fn key_events_trigger_the_expected_actions() {
    assert_eq!(key_event_action(KeyCode::Escape, KeyState::Pressed, 0, 16), AppAction::Exit);
    assert_eq!(
        key_event_action(KeyCode::Q, KeyState::Released, 15, 16),
        AppAction::SpawnDynamicObject
    );
    assert_eq!(key_event_action(KeyCode::Q, KeyState::Released, 16, 16), AppAction::SpawnRefused);
    assert_eq!(
        key_event_action(KeyCode::C, KeyState::Pressed, 0, 16),
        AppAction::ToggleCursorGrab
    );
    assert_eq!(
        key_event_action(KeyCode::LControl, KeyState::Pressed, 0, 16),
        AppAction::SetFastCameraSpeed
    );
    assert_eq!(
        key_event_action(KeyCode::LControl, KeyState::Released, 0, 16),
        AppAction::SetNormalCameraSpeed
    );
    assert_eq!(key_event_action(KeyCode::W, KeyState::Pressed, 0, 16), AppAction::NoAction);
    assert_eq!(key_event_action(KeyCode::Escape, KeyState::Released, 0, 16), AppAction::NoAction);
}
