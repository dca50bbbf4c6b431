use winit::compose::ComposeEngine;
use winit::compose::ComposeRule;
use winit::events::ElementState;
use winit::events::VirtualKeyCode;
use winit::xkb::KeymapEntry;
use winit::xkb::XkbComposeInitError;
use winit::xkb::XkbInitError;
use winit::xkb::XkbStateInitError;
use winit::xkb::validate_compose_setup;
use winit::xkb::validate_xkb_setup;
use winit::xkb::validate_xkb_state_setup;
use winit::xkb::Xkb;
use winit::xkb::XkbState;
use winit::xkb::modifiers_from_mask;
use winit::xkb::virtual_key_from_keysym;
use winit::xkb::xkb_keycode_from_x11_keycode;

const DEAD_ACUTE: u32 = 0xfe51;
const KEY_E: u32 = 0x65;

fn keymap() -> Vec<KeymapEntry> {
    vec![
        KeymapEntry { keycode: 26, keysym: KEY_E, utf8: "e".to_string() },
        KeymapEntry { keycode: 100, keysym: DEAD_ACUTE, utf8: String::new() },
        KeymapEntry { keycode: 50, keysym: 0xffe1, utf8: String::new() },
    ]
}

fn compose_engine() -> ComposeEngine {
    ComposeEngine::new(vec![ComposeRule {
        sequence: vec![DEAD_ACUTE, KEY_E],
        keysym: 0xe9,
        utf8: "é".to_string(),
    }])
}

#[test]
fn keycode_conversion_is_the_identity_in_range() {
    assert_eq!(xkb_keycode_from_x11_keycode(8), 8);
    assert_eq!(xkb_keycode_from_x11_keycode(255), 255);
}

#[test]
fn modifiers_are_read_from_the_effective_mask() {
    let mods = modifiers_from_mask(1 | 8);
    assert!(mods.shift);
    assert!(mods.alt);
    assert!(!mods.ctrl);
    assert!(!mods.logo);
    let none = modifiers_from_mask(0);
    assert!(!none.shift && !none.ctrl && !none.alt && !none.logo);
}

#[test]
fn virtual_keys_cover_letters_digits_and_navigation() {
    assert_eq!(virtual_key_from_keysym(0x61), Some(VirtualKeyCode::A));
    assert_eq!(virtual_key_from_keysym(0x41), Some(VirtualKeyCode::A));
    assert_eq!(virtual_key_from_keysym(0x7a), Some(VirtualKeyCode::Z));
    assert_eq!(virtual_key_from_keysym(0x30), Some(VirtualKeyCode::Key0));
    assert_eq!(virtual_key_from_keysym(0xff1b), Some(VirtualKeyCode::Escape));
    assert_eq!(virtual_key_from_keysym(0xff51), Some(VirtualKeyCode::Left));
    assert_eq!(virtual_key_from_keysym(0xfe51), None);
}

#[test]
fn direct_press_commits_the_keymap_text() {
    let mut xkb = Xkb::new();
    xkb.add_keyboard(3, XkbState::new(keymap(), Some(compose_engine())));
    let data = xkb.get_event_data(3, 26, ElementState::Pressed, false).unwrap();
    assert_eq!(data.scancode, 18);
    assert_eq!(data.virtual_keycode, Some(VirtualKeyCode::E));
    assert_eq!(data.utf8, Some("e".to_string()));
}

#[test]
fn dead_key_press_commits_nothing_until_composed() {
    let mut xkb = Xkb::new();
    xkb.add_keyboard(3, XkbState::new(keymap(), Some(compose_engine())));
    let dead = xkb.get_event_data(3, 100, ElementState::Pressed, false).unwrap();
    assert_eq!(dead.utf8, None);
    let composed = xkb.get_event_data(3, 26, ElementState::Pressed, false).unwrap();
    assert_eq!(composed.utf8, Some("é".to_string()));
    // The composed result was consumed exactly once; the next press is
    // ordinary again.
    let plain = xkb.get_event_data(3, 26, ElementState::Pressed, false).unwrap();
    assert_eq!(plain.utf8, Some("e".to_string()));
}

#[test]
fn releases_feed_nothing_and_commit_nothing() {
    let mut xkb = Xkb::new();
    xkb.add_keyboard(3, XkbState::new(keymap(), Some(compose_engine())));
    xkb.get_event_data(3, 100, ElementState::Pressed, false).unwrap();
    let release = xkb.get_event_data(3, 26, ElementState::Released, false).unwrap();
    assert_eq!(release.utf8, None);
    // The sequence is still in progress: the press completes it.
    let composed = xkb.get_event_data(3, 26, ElementState::Pressed, false).unwrap();
    assert_eq!(composed.utf8, Some("é".to_string()));
}

#[test]
fn bypass_compose_does_not_perturb_compose_state() {
    let mut xkb = Xkb::new();
    xkb.add_keyboard(3, XkbState::new(keymap(), Some(compose_engine())));
    xkb.get_event_data(3, 100, ElementState::Pressed, false).unwrap();
    // A raw query in the middle of a sequence must not disturb it.
    let raw = xkb.get_event_data(3, 26, ElementState::Pressed, true).unwrap();
    assert_eq!(raw.utf8, Some("e".to_string()));
    let composed = xkb.get_event_data(3, 26, ElementState::Pressed, false).unwrap();
    assert_eq!(composed.utf8, Some("é".to_string()));
}

#[test]
fn unknown_devices_yield_no_event_data() {
    let mut xkb = Xkb::new();
    assert!(xkb.get_event_data(9, 26, ElementState::Pressed, false).is_none());
    assert!(xkb.get_keysym(9, 26).is_none());
    assert!(xkb.get_modifiers(9).is_none());
}

#[test]
fn extension_setup_errors_are_ordered() {
    assert_eq!(
        validate_xkb_setup(false, 1, 5, 3),
        Err(XkbInitError::LibxkbcommonUnavailable)
    );
    assert_eq!(validate_xkb_setup(true, 0, 5, 3), Err(XkbInitError::ExtensionSetupFailed));
    assert_eq!(validate_xkb_setup(true, 1, 0, 3), Err(XkbInitError::ContextIsNull));
    assert_eq!(validate_xkb_setup(true, 1, 5, -1), Err(XkbInitError::CoreDeviceIdInvalid));
    assert_eq!(validate_xkb_setup(true, 1, 5, 3), Ok(()));
}

#[test]
fn state_setup_errors_are_ordered() {
    assert_eq!(validate_xkb_state_setup(0, 5, true), Err(XkbStateInitError::KeymapIsNull));
    assert_eq!(validate_xkb_state_setup(4, 0, true), Err(XkbStateInitError::StateIsNull));
    assert_eq!(
        validate_xkb_state_setup(4, 5, false),
        Err(XkbStateInitError::XkbExtNotInitialized)
    );
    assert_eq!(validate_xkb_state_setup(4, 5, true), Ok(()));
}

#[test]
fn compose_setup_errors_are_ordered() {
    assert_eq!(
        validate_compose_setup(false, 4, 5),
        Err(XkbComposeInitError::ComposeUnavailable)
    );
    assert_eq!(validate_compose_setup(true, 0, 5), Err(XkbComposeInitError::ComposeTableIsNull));
    assert_eq!(validate_compose_setup(true, 4, 0), Err(XkbComposeInitError::ComposeStateIsNull));
    assert_eq!(validate_compose_setup(true, 4, 5), Ok(()));
}

#[test]
fn state_updates_change_the_modifier_snapshot() {
    let mut xkb = Xkb::new();
    xkb.add_keyboard(3, XkbState::new(keymap(), None));
    xkb.update(3, 4, 0, 64, 0, 0, 0);
    let mods = xkb.get_modifiers(3).unwrap();
    assert!(mods.ctrl);
    assert!(mods.logo);
    assert!(!mods.shift);
}
