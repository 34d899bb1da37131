use bevy_window_sdl2_backend::events::{
    EngineEvent, HandleEventState, SdlEvent, TouchPhase, handle_sdl_event,
};
use bevy_window_sdl2_backend::keyboard::{Key, KeyCode, Keycode, Scancode};
use bevy_window_sdl2_backend::mouse::{MouseButton, SdlMouseButton};
use bevy_window_sdl2_backend::window::SdlWindowEvent;
use bevy_window_sdl2_backend::windows::SdlWindows;

fn table() -> SdlWindows {
    let mut map = SdlWindows::new();
    map.insert(100, 1);
    map.insert(200, 2);
    map
}

#[test]
fn quit_exits_the_loop() {
    let map = table();
    let out = handle_sdl_event(&map, None, SdlEvent::Quit);
    assert_eq!(out.state, HandleEventState::Exit);
    assert!(out.events.is_empty());
    assert!(!out.missing_window);
}

#[test]
fn key_down_translates_to_a_press() {
    let map = table();
    let out = handle_sdl_event(
        &map,
        None,
        SdlEvent::KeyDown {
            window_id: 1,
            scancode: Some(Scancode::A),
            keycode: Some(Keycode::A),
            key_name: String::from("A"),
            repeat: false,
        },
    );
    assert_eq!(out.state, HandleEventState::Continue);
    assert!(!out.missing_window);
    assert_eq!(
        out.events,
        vec![EngineEvent::KeyboardInput {
            window: 100,
            key_code: KeyCode::KeyA,
            logical_key: Key::Character(String::from("A")),
            pressed: true,
            repeat: false,
        }]
    );
}

#[test]
fn key_up_translates_to_a_release() {
    let map = table();
    let out = handle_sdl_event(
        &map,
        None,
        SdlEvent::KeyUp {
            window_id: 2,
            scancode: Some(Scancode::Escape),
            keycode: Some(Keycode::Escape),
            key_name: String::from("Escape"),
            repeat: true,
        },
    );
    assert_eq!(
        out.events,
        vec![EngineEvent::KeyboardInput {
            window: 200,
            key_code: KeyCode::Escape,
            logical_key: Key::Escape,
            pressed: false,
            repeat: true,
        }]
    );
}

#[test]
fn key_without_scancode_is_dropped() {
    let map = table();
    let out = handle_sdl_event(
        &map,
        None,
        SdlEvent::KeyDown {
            window_id: 1,
            scancode: None,
            keycode: Some(Keycode::A),
            key_name: String::from("A"),
            repeat: false,
        },
    );
    assert!(out.events.is_empty());
    assert!(!out.missing_window);
}

#[test]
fn key_with_untranslatable_scancode_is_dropped() {
    let map = table();
    let out = handle_sdl_event(
        &map,
        None,
        SdlEvent::KeyDown {
            window_id: 1,
            scancode: Some(Scancode::Www),
            keycode: Some(Keycode::A),
            key_name: String::from("A"),
            repeat: false,
        },
    );
    assert!(out.events.is_empty());
}

#[test]
fn key_for_unknown_window_is_fatal() {
    let map = table();
    let out = handle_sdl_event(
        &map,
        None,
        SdlEvent::KeyDown {
            window_id: 9,
            scancode: Some(Scancode::A),
            keycode: Some(Keycode::A),
            key_name: String::from("A"),
            repeat: false,
        },
    );
    assert!(out.missing_window);
    assert!(out.events.is_empty());
}

#[test]
fn mouse_buttons_translate_with_state() {
    let map = table();
    let out = handle_sdl_event(
        &map,
        None,
        SdlEvent::MouseButtonDown {
            window_id: 1,
            mouse_btn: SdlMouseButton::X1,
        },
    );
    assert_eq!(
        out.events,
        vec![EngineEvent::MouseButtonInput {
            window: 100,
            button: MouseButton::Back,
            pressed: true,
        }]
    );
    let out = handle_sdl_event(
        &map,
        None,
        SdlEvent::MouseButtonUp {
            window_id: 1,
            mouse_btn: SdlMouseButton::Left,
        },
    );
    assert_eq!(
        out.events,
        vec![EngineEvent::MouseButtonInput {
            window: 100,
            button: MouseButton::Left,
            pressed: false,
        }]
    );
}

#[test]
fn unknown_mouse_button_is_dropped() {
    let map = table();
    let out = handle_sdl_event(
        &map,
        None,
        SdlEvent::MouseButtonDown {
            window_id: 1,
            mouse_btn: SdlMouseButton::Unknown,
        },
    );
    assert!(out.events.is_empty());
    assert!(!out.missing_window);
}

#[test]
fn mouse_motion_reports_motion_and_cursor_and_updates_state() {
    let map = table();
    let out = handle_sdl_event(
        &map,
        Some((10, 20)),
        SdlEvent::MouseMotion {
            window_id: 2,
            x: 30,
            y: 40,
            xrel: 3,
            yrel: -4,
        },
    );
    assert_eq!(
        out.events,
        vec![
            EngineEvent::MouseMotion {
                delta_x: 3,
                delta_y: -4,
            },
            EngineEvent::CursorMoved {
                window: 200,
                physical_x: 30,
                physical_y: 40,
                previous: Some((10, 20)),
            },
        ]
    );
    assert_eq!(out.cursor_update, Some((200, 30, 40)));
}

#[test]
fn mouse_motion_without_previous_position() {
    let map = table();
    let out = handle_sdl_event(
        &map,
        None,
        SdlEvent::MouseMotion {
            window_id: 1,
            x: 7,
            y: 8,
            xrel: 1,
            yrel: 1,
        },
    );
    assert_eq!(
        out.events[1],
        EngineEvent::CursorMoved {
            window: 100,
            physical_x: 7,
            physical_y: 8,
            previous: None,
        }
    );
}

#[test]
fn mouse_motion_for_unknown_window_still_reports_motion() {
    let map = table();
    let out = handle_sdl_event(
        &map,
        None,
        SdlEvent::MouseMotion {
            window_id: 9,
            x: 1,
            y: 2,
            xrel: 3,
            yrel: 4,
        },
    );
    assert!(out.missing_window);
    assert_eq!(
        out.events,
        vec![EngineEvent::MouseMotion {
            delta_x: 3,
            delta_y: 4,
        }]
    );
    assert_eq!(out.cursor_update, None);
}

#[test]
fn mouse_wheel_passes_the_amounts_through() {
    let map = table();
    let x_bits = 1069547520u32; // 1.5f32
    let y_bits = 3212836864u32; // -1.0f32
    let out = handle_sdl_event(
        &map,
        None,
        SdlEvent::MouseWheel {
            window_id: 1,
            precise_x_bits: x_bits,
            precise_y_bits: y_bits,
        },
    );
    assert_eq!(
        out.events,
        vec![EngineEvent::MouseWheel {
            window: 100,
            x_bits,
            y_bits,
        }]
    );
}

#[test]
fn text_input_commits_text() {
    let map = table();
    let out = handle_sdl_event(
        &map,
        None,
        SdlEvent::TextInput {
            window_id: 2,
            text: String::from("hi"),
        },
    );
    assert_eq!(
        out.events,
        vec![EngineEvent::ImeCommit {
            window: 200,
            value: String::from("hi"),
        }]
    );
}

#[test]
fn text_input_for_unknown_window_is_dropped_quietly() {
    let map = table();
    let out = handle_sdl_event(
        &map,
        None,
        SdlEvent::TextInput {
            window_id: 9,
            text: String::from("hi"),
        },
    );
    assert!(out.events.is_empty());
    assert!(!out.missing_window);
}

#[test]
fn text_editing_reports_the_preedit_range() {
    let map = table();
    let out = handle_sdl_event(
        &map,
        None,
        SdlEvent::TextEditing {
            window_id: 1,
            text: String::from("abc"),
            start: 2,
            length: 3,
        },
    );
    assert_eq!(
        out.events,
        vec![EngineEvent::ImePreedit {
            window: 100,
            value: String::from("abc"),
            cursor_start: 2,
            cursor_end: 5,
        }]
    );
}

#[test]
fn drop_file_reports_the_path() {
    let map = table();
    let out = handle_sdl_event(
        &map,
        None,
        SdlEvent::DropFile {
            window_id: 1,
            filename: String::from("/tmp/drop.txt"),
        },
    );
    assert_eq!(
        out.events,
        vec![EngineEvent::DroppedFile {
            window: 100,
            path: String::from("/tmp/drop.txt"),
        }]
    );
}

#[test]
fn touch_events_go_to_the_entity_of_window_zero() {
    let mut map = SdlWindows::new();
    map.insert(77, 0);
    let out = handle_sdl_event(
        &map,
        None,
        SdlEvent::FingerDown {
            finger_id: 5,
            x_bits: 1,
            y_bits: 2,
            pressure_bits: 3,
        },
    );
    assert_eq!(
        out.events,
        vec![EngineEvent::TouchInput {
            window: 77,
            phase: TouchPhase::Started,
            finger_id: 5,
            x_bits: 1,
            y_bits: 2,
            pressure_bits: 3,
        }]
    );
}

#[test]
fn touch_without_window_zero_is_dropped() {
    let map = table();
    let out = handle_sdl_event(
        &map,
        None,
        SdlEvent::FingerMotion {
            finger_id: 5,
            x_bits: 1,
            y_bits: 2,
            pressure_bits: 3,
        },
    );
    assert!(out.events.is_empty());
    assert!(!out.missing_window);
}

#[test]
fn window_events_are_dispatched_to_their_entity() {
    let map = table();
    let out = handle_sdl_event(
        &map,
        None,
        SdlEvent::Window {
            window_id: 2,
            win_event: SdlWindowEvent::Close,
        },
    );
    assert_eq!(out.window_event, Some((200, SdlWindowEvent::Close)));
    assert!(out.events.is_empty());
    assert!(!out.missing_window);
}

#[test]
fn window_event_for_unknown_window_is_fatal() {
    let map = table();
    let out = handle_sdl_event(
        &map,
        None,
        SdlEvent::Window {
            window_id: 9,
            win_event: SdlWindowEvent::Close,
        },
    );
    assert!(out.missing_window);
    assert_eq!(out.window_event, None);
}

#[test]
fn unrecognized_events_do_nothing() {
    let map = table();
    let out = handle_sdl_event(&map, None, SdlEvent::Other);
    assert_eq!(out.state, HandleEventState::Continue);
    assert!(out.events.is_empty());
    assert!(!out.missing_window);
    assert_eq!(out.window_event, None);
    assert_eq!(out.cursor_update, None);
}
