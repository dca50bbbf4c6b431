use winit::events::Event;
use winit::events::LifecycleEvent;
use winit::events::TouchPhase;
use winit::events::WindowEvent;
use winit::events::WindowId;
use winit::events::normalize_lifecycle;
use winit::events::received_character_events;
use winit::events::VirtualKeyCode;
use winit::events::control_char_for_noop;
use winit::events::touch_phase_from_code;
use winit::geometry::FrameExtents;
use winit::geometry::FrameExtentsHeuristic;
use winit::geometry::FrameExtentsHeuristicPath;
use winit::has_flag;
use winit::window::CreationError;
use winit::window::CursorState;
use winit::window::CursorStatePlan;
use winit::window::CursorType;
use winit::window::MouseCursor;
use winit::window::SharedState;
use winit::window::WindowAttributes;
use winit::window::cursor_names;
use winit::window::cursor_state_plan;
use winit::window::grab_status_result;
use winit::window::initial_dimensions;
use winit::window::size_hint_flags;
use winit::window::xinput_event_mask;

#[test]
fn default_attributes_describe_a_plain_visible_window() {
    let attrs = WindowAttributes::default();
    assert_eq!(attrs.dimensions, None);
    assert_eq!(attrs.title, "winit window".to_string());
    assert!(attrs.resizable);
    assert!(attrs.visible);
    assert!(attrs.decorations);
    assert!(!attrs.maximized);
    assert!(!attrs.transparent);
    assert!(!attrs.always_on_top);
    assert!(!attrs.multitouch);
}

#[test]
fn creation_error_messages() {
    assert_eq!(
        CreationError::NotSupported.to_string(),
        "Some of the requested attributes are not supported"
    );
    assert_eq!(CreationError::OsError("boom".to_string()).to_string(), "boom");
}

#[test]
fn initial_dimensions_default_and_clamp() {
    assert_eq!(initial_dimensions(None, None, None), (800, 600));
    assert_eq!(initial_dimensions(Some((1000, 500)), None, Some((800, 550))), (800, 500));
    // The minimum is applied after the maximum, so it wins when the two
    // conflict.
    assert_eq!(
        initial_dimensions(Some((1000, 500)), Some((200, 600)), Some((800, 550))),
        (800, 600)
    );
}

#[test]
fn cursor_names_prefer_better_looking_themes() {
    assert_eq!(cursor_names(MouseCursor::Default), vec!["left_ptr"]);
    assert_eq!(cursor_names(MouseCursor::Hand), vec!["hand2", "hand1"]);
    assert_eq!(cursor_names(MouseCursor::Text), vec!["text", "xterm"]);
    assert_eq!(cursor_names(MouseCursor::Wait), vec!["watch"]);
}

#[test]
fn cursor_type_maps_to_native_selectors() {
    assert_eq!(CursorType::from(MouseCursor::Default), CursorType::Native("arrowCursor"));
    assert_eq!(CursorType::from(MouseCursor::Hand), CursorType::Native("pointingHandCursor"));
    assert_eq!(CursorType::from(MouseCursor::Help), CursorType::Undocumented("_helpCursor"));
    assert_eq!(CursorType::from(MouseCursor::Cell), CursorType::WebKit("cell"));
    assert_eq!(MouseCursor::default(), MouseCursor::Default);
}

#[test]
fn cursor_state_changes_plan_their_native_steps() {
    assert_eq!(cursor_state_plan(CursorState::Normal, CursorState::Normal), None);
    assert_eq!(
        cursor_state_plan(CursorState::Grab, CursorState::Hide),
        Some(CursorStatePlan {
            ungrab_first: true,
            restore_cursor: false,
            hide_cursor: true,
            grab: false,
        })
    );
    assert_eq!(
        cursor_state_plan(CursorState::Hide, CursorState::Grab),
        Some(CursorStatePlan {
            ungrab_first: false,
            restore_cursor: true,
            hide_cursor: false,
            grab: true,
        })
    );
}

#[test]
fn grab_status_zero_is_success() {
    assert_eq!(grab_status_result(0), Ok(()));
    assert_eq!(grab_status_result(1), Err("cursor could not be grabbed".to_string()));
    assert_eq!(grab_status_result(4), Err("cursor could not be grabbed".to_string()));
}

#[test]
fn size_hint_flags_advertise_the_set_constraints() {
    assert_eq!(size_hint_flags(false, false), 8);
    assert_eq!(size_hint_flags(true, false), 24);
    assert_eq!(size_hint_flags(false, true), 40);
    assert_eq!(size_hint_flags(true, true), 56);
}

#[test]
fn xinput_masks_include_touch_bits_only_on_request() {
    assert_eq!(xinput_event_mask(false), 2032);
    assert_eq!(xinput_event_mask(true), 1837040);
}

#[test]
fn cached_geometry_answers_from_the_cache() {
    let mut shared = SharedState::new();
    assert_eq!(shared.cached_position(), None);
    assert_eq!(shared.cached_outer_size(), None);
    shared.frame_extents = Some(FrameExtentsHeuristic {
        frame_extents: FrameExtents::new(10, 10, 30, 10),
        heuristic_path: FrameExtentsHeuristicPath::Supported,
    });
    shared.inner_position = Some((100, 200));
    shared.inner_size = Some((640, 480));
    assert_eq!(shared.cached_position(), Some((90, 170)));
    assert_eq!(shared.cached_inner_position(), Some((100, 200)));
    assert_eq!(shared.cached_inner_size(), Some((640, 480)));
    assert_eq!(shared.cached_outer_size(), Some((660, 520)));
    shared.invalidate_frame_extents();
    assert_eq!(shared.cached_position(), None);
}

#[test]
fn touch_phases_come_from_the_documented_codes() {
    assert_eq!(touch_phase_from_code(0), Some(TouchPhase::Started));
    assert_eq!(touch_phase_from_code(1), Some(TouchPhase::Moved));
    assert_eq!(touch_phase_from_code(3), Some(TouchPhase::Ended));
    assert_eq!(touch_phase_from_code(4), Some(TouchPhase::Cancelled));
    // An undocumented phase is dropped, never a panic.
    assert_eq!(touch_phase_from_code(2), None);
    assert_eq!(touch_phase_from_code(99), None);
}

#[test]
fn noop_commands_map_queued_keys_to_control_characters() {
    assert_eq!(control_char_for_noop(Some(VirtualKeyCode::C)), Some('\u{3}'));
    assert_eq!(control_char_for_noop(Some(VirtualKeyCode::D)), Some('\u{4}'));
    assert_eq!(control_char_for_noop(Some(VirtualKeyCode::V)), Some('\u{16}'));
    assert_eq!(control_char_for_noop(Some(VirtualKeyCode::Z)), Some('\u{1a}'));
    assert_eq!(control_char_for_noop(Some(VirtualKeyCode::A)), None);
    assert_eq!(control_char_for_noop(None), None);
}

#[test]
fn lifecycle_notifications_normalize_to_portable_events() {
    let id = WindowId(1);
    assert_eq!(
        normalize_lifecycle::<u32>(LifecycleEvent::BecameActive, id),
        Event::WindowEvent { window_id: id, event: WindowEvent::Focused(true) }
    );
    assert_eq!(
        normalize_lifecycle::<u32>(LifecycleEvent::WillResignActive, id),
        Event::WindowEvent { window_id: id, event: WindowEvent::Focused(false) }
    );
    assert_eq!(
        normalize_lifecycle::<u32>(LifecycleEvent::WillEnterForeground, id),
        Event::Suspended(false)
    );
    assert_eq!(
        normalize_lifecycle::<u32>(LifecycleEvent::DidEnterBackground, id),
        Event::Suspended(true)
    );
    assert_eq!(
        normalize_lifecycle::<u32>(LifecycleEvent::WillTerminate, id),
        Event::WindowEvent { window_id: id, event: WindowEvent::Destroyed }
    );
}

#[test]
fn committed_text_becomes_one_event_per_character() {
    let id = WindowId(7);
    let events = received_character_events::<u32>(id, "héllo");
    assert_eq!(events.len(), 5);
    assert_eq!(
        events[1],
        Event::WindowEvent { window_id: id, event: WindowEvent::ReceivedCharacter('é') }
    );
    assert_eq!(
        events[4],
        Event::WindowEvent { window_id: id, event: WindowEvent::ReceivedCharacter('o') }
    );
    assert_eq!(received_character_events::<u32>(id, "").len(), 0);
}

#[test]
fn has_flag_checks_every_bit_of_the_flag() {
    assert!(has_flag(0b1011, 0b0011));
    assert!(!has_flag(0b1011, 0b0110));
    assert!(has_flag(7, 0));
}
