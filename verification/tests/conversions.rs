use bevy_window_sdl2_backend::cursor::{
    CursorIcon, SdlSystemCursor, SystemCursorIcon, cursor_action, map_bevy_system_cursor_to_sdl,
};
use bevy_window_sdl2_backend::keyboard::{
    Key, KeyCode, Keycode, Scancode, convert_sdl_keycode, convert_sdl_scancode,
};
use bevy_window_sdl2_backend::mouse::{MouseButton, SdlMouseButton, convert_sdl_mouse_btn};

#[test]
fn scancode_letters_and_digits() {
    assert_eq!(convert_sdl_scancode(Scancode::A), Some(KeyCode::KeyA));
    assert_eq!(convert_sdl_scancode(Scancode::Z), Some(KeyCode::KeyZ));
    assert_eq!(convert_sdl_scancode(Scancode::Num1), Some(KeyCode::Digit1));
    assert_eq!(convert_sdl_scancode(Scancode::Num0), Some(KeyCode::Digit0));
}

#[test]
fn scancode_named_keys() {
    assert_eq!(convert_sdl_scancode(Scancode::Return), Some(KeyCode::Enter));
    assert_eq!(convert_sdl_scancode(Scancode::Escape), Some(KeyCode::Escape));
    assert_eq!(convert_sdl_scancode(Scancode::Equals), Some(KeyCode::Equal));
    assert_eq!(
        convert_sdl_scancode(Scancode::NonUsBackslash),
        Some(KeyCode::IntlBackslash)
    );
    assert_eq!(
        convert_sdl_scancode(Scancode::Apostrophe),
        Some(KeyCode::Quote)
    );
    assert_eq!(convert_sdl_scancode(Scancode::F24), Some(KeyCode::F24));
    assert_eq!(
        convert_sdl_scancode(Scancode::LGui),
        Some(KeyCode::SuperLeft)
    );
}

#[test]
fn scancode_collisions_map_to_same_key() {
    // Two native scancodes share one engine key in the audio group.
    assert_eq!(
        convert_sdl_scancode(Scancode::Mute),
        Some(KeyCode::AudioVolumeMute)
    );
    assert_eq!(
        convert_sdl_scancode(Scancode::AudioMute),
        Some(KeyCode::AudioVolumeMute)
    );
    assert_eq!(
        convert_sdl_scancode(Scancode::AudioPlay),
        Some(KeyCode::MediaPlayPause)
    );
    assert_eq!(
        convert_sdl_scancode(Scancode::MediaSelect),
        Some(KeyCode::MediaPlayPause)
    );
    assert_eq!(
        convert_sdl_scancode(Scancode::KpEquals),
        Some(KeyCode::NumpadEqual)
    );
    assert_eq!(
        convert_sdl_scancode(Scancode::KpEqualsAS400),
        Some(KeyCode::NumpadEqual)
    );
}

#[test]
fn scancode_numlock_quirk() {
    // The table routes the scancode-count sentinel to NumLock and leaves
    // the clear-numlock scancode untranslated.
    assert_eq!(convert_sdl_scancode(Scancode::Num), Some(KeyCode::NumLock));
    assert_eq!(convert_sdl_scancode(Scancode::NumLockClear), None);
}

#[test]
fn scancode_unsupported() {
    assert_eq!(convert_sdl_scancode(Scancode::Www), None);
    assert_eq!(convert_sdl_scancode(Scancode::Power), None);
    assert_eq!(convert_sdl_scancode(Scancode::KpA), None);
    assert_eq!(convert_sdl_scancode(Scancode::International1), None);
    assert_eq!(convert_sdl_scancode(Scancode::Mode), None);
}

#[test]
fn keycode_character_keys_carry_the_native_name() {
    assert_eq!(
        convert_sdl_keycode(Keycode::A, String::from("A")),
        Some(Key::Character(String::from("A")))
    );
    assert_eq!(
        convert_sdl_keycode(Keycode::Num7, String::from("7")),
        Some(Key::Character(String::from("7")))
    );
    assert_eq!(
        convert_sdl_keycode(Keycode::Kp0, String::from("Keypad 0")),
        Some(Key::Character(String::from("Keypad 0")))
    );
    assert_eq!(
        convert_sdl_keycode(Keycode::Exclaim, String::from("!")),
        Some(Key::Character(String::from("!")))
    );
}

#[test]
fn keycode_named_keys_ignore_the_name() {
    assert_eq!(
        convert_sdl_keycode(Keycode::F1, String::from("F1")),
        Some(Key::F1)
    );
    assert_eq!(
        convert_sdl_keycode(Keycode::Return, String::from("Return")),
        Some(Key::Enter)
    );
    assert_eq!(
        convert_sdl_keycode(Keycode::LCtrl, String::new()),
        Some(Key::Control)
    );
    assert_eq!(
        convert_sdl_keycode(Keycode::RCtrl, String::new()),
        Some(Key::Control)
    );
    assert_eq!(
        convert_sdl_keycode(Keycode::LGui, String::new()),
        Some(Key::Super)
    );
    assert_eq!(
        convert_sdl_keycode(Keycode::Mode, String::new()),
        Some(Key::ModeChange)
    );
    assert_eq!(
        convert_sdl_keycode(Keycode::MediaSelect, String::new()),
        Some(Key::LaunchMediaPlayer)
    );
}

#[test]
fn keycode_unknown_maps_to_none() {
    assert_eq!(convert_sdl_keycode(Keycode::Other, String::from("x")), None);
}

#[test]
fn mouse_buttons() {
    assert_eq!(
        convert_sdl_mouse_btn(SdlMouseButton::Left),
        Some(MouseButton::Left)
    );
    assert_eq!(
        convert_sdl_mouse_btn(SdlMouseButton::Middle),
        Some(MouseButton::Middle)
    );
    assert_eq!(
        convert_sdl_mouse_btn(SdlMouseButton::Right),
        Some(MouseButton::Right)
    );
    assert_eq!(
        convert_sdl_mouse_btn(SdlMouseButton::X1),
        Some(MouseButton::Back)
    );
    assert_eq!(
        convert_sdl_mouse_btn(SdlMouseButton::X2),
        Some(MouseButton::Forward)
    );
    assert_eq!(convert_sdl_mouse_btn(SdlMouseButton::Unknown), None);
}

#[test]
fn system_cursor_mapping() {
    assert_eq!(
        map_bevy_system_cursor_to_sdl(&SystemCursorIcon::Default),
        Some(SdlSystemCursor::Arrow)
    );
    assert_eq!(
        map_bevy_system_cursor_to_sdl(&SystemCursorIcon::Crosshair),
        Some(SdlSystemCursor::Crosshair)
    );
    assert_eq!(
        map_bevy_system_cursor_to_sdl(&SystemCursorIcon::Text),
        Some(SdlSystemCursor::IBeam)
    );
    assert_eq!(map_bevy_system_cursor_to_sdl(&SystemCursorIcon::Grab), None);
    assert_eq!(map_bevy_system_cursor_to_sdl(&SystemCursorIcon::Wait), None);
}

#[test]
fn cursor_pass_sets_on_startup() {
    // No native cursor yet: the icon is installed even without a change.
    let r = cursor_action(false, false, &CursorIcon::System(SystemCursorIcon::Text));
    assert_eq!(r, Some(SdlSystemCursor::IBeam));
}

#[test]
fn cursor_pass_waits_for_changes_once_set() {
    let icon = CursorIcon::System(SystemCursorIcon::Default);
    assert_eq!(cursor_action(true, false, &icon), None);
    assert_eq!(cursor_action(true, true, &icon), Some(SdlSystemCursor::Arrow));
}

#[test]
fn cursor_pass_skips_custom_and_unmapped_icons() {
    assert_eq!(cursor_action(false, true, &CursorIcon::Custom), None);
    assert_eq!(
        cursor_action(true, true, &CursorIcon::System(SystemCursorIcon::ZoomIn)),
        None
    );
}
