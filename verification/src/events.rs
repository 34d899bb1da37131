use vstd::prelude::*;

use crate::keyboard::{Key, KeyCode, Keycode, Scancode};
use crate::keyboard::{keycode_is_character, named_key_of, scancode_key_code};
use crate::mouse::{MouseButton, SdlMouseButton, mouse_button_of};
use crate::window::SdlWindowEvent;
use crate::window::WindowState;
use crate::window::spec_window_after;
use crate::windows::{EntityId, SdlWindows, WindowId};

verus! {

/// Phase of a touch contact.
#[derive(Clone, Copy, Debug, PartialEq, Eq, Structural)]
pub enum TouchPhase {
    Started,
    Moved,
    Ended,
}

/// Input or lifecycle notification of the native window system, as plain
/// values. Fields named `..._bits` carry the IEEE-754 bit pattern of a
/// native single-precision value; the translation moves them through
/// untouched.
#[derive(Clone, Debug, PartialEq)]
pub enum SdlEvent {
    Quit,
    Window { window_id: WindowId, win_event: SdlWindowEvent },
    KeyDown {
        window_id: WindowId,
        scancode: Option<Scancode>,
        keycode: Option<Keycode>,
        key_name: String,
        repeat: bool,
    },
    KeyUp {
        window_id: WindowId,
        scancode: Option<Scancode>,
        keycode: Option<Keycode>,
        key_name: String,
        repeat: bool,
    },
    MouseButtonDown { window_id: WindowId, mouse_btn: SdlMouseButton },
    MouseButtonUp { window_id: WindowId, mouse_btn: SdlMouseButton },
    MouseMotion { window_id: WindowId, x: i32, y: i32, xrel: i32, yrel: i32 },
    MouseWheel { window_id: WindowId, precise_x_bits: u32, precise_y_bits: u32 },
    TextInput { window_id: WindowId, text: String },
    TextEditing { window_id: WindowId, text: String, start: i32, length: i32 },
    DropFile { window_id: WindowId, filename: String },
    FingerDown { finger_id: i64, x_bits: u32, y_bits: u32, pressure_bits: u32 },
    FingerUp { finger_id: i64, x_bits: u32, y_bits: u32, pressure_bits: u32 },
    FingerMotion { finger_id: i64, x_bits: u32, y_bits: u32, pressure_bits: u32 },
    Other,
}

/// Notification for the engine's event system, as plain values. Cursor and
/// resize coordinates are physical pixels; the caller divides by the scale
/// factor where the engine expects logical units.
#[derive(Clone, Debug, PartialEq)]
pub enum EngineEvent {
    KeyboardInput {
        window: EntityId,
        key_code: KeyCode,
        logical_key: Key,
        pressed: bool,
        repeat: bool,
    },
    MouseButtonInput { window: EntityId, button: MouseButton, pressed: bool },
    MouseMotion { delta_x: i32, delta_y: i32 },
    CursorMoved {
        window: EntityId,
        physical_x: i32,
        physical_y: i32,
        previous: Option<(i32, i32)>,
    },
    MouseWheel { window: EntityId, x_bits: u32, y_bits: u32 },
    ImeCommit { window: EntityId, value: String },
    ImePreedit { window: EntityId, value: String, cursor_start: i64, cursor_end: i64 },
    DroppedFile { window: EntityId, path: String },
    TouchInput {
        window: EntityId,
        phase: TouchPhase,
        finger_id: i64,
        x_bits: u32,
        y_bits: u32,
        pressure_bits: u32,
    },
    WindowResized { window: EntityId, physical_width: u32, physical_height: u32 },
    WindowMoved { window: EntityId, x: i32, y: i32 },
    CursorEntered { window: EntityId },
    CursorLeft { window: EntityId },
    WindowFocused { window: EntityId, focused: bool },
    WindowCloseRequested { window: EntityId },
}

/// Whether the run loop goes on polling or shuts the application down.
#[derive(Clone, Copy, Debug, PartialEq, Eq, Structural)]
pub enum HandleEventState {
    Continue,
    Exit,
}

/// Everything one native event asks of the run loop: whether to exit,
/// whether a window lookup that the run loop treats as fatal failed, the
/// engine events to forward, a window event to apply to the window state of
/// its entity, and a cursor position to record.
pub struct EventOutcome {
    pub state: HandleEventState,
    pub missing_window: bool,
    pub events: Vec<EngineEvent>,
    pub window_event: Option<(EntityId, SdlWindowEvent)>,
    pub cursor_update: Option<(EntityId, i32, i32)>,
}

/// The engine events produced for one key press or release: nothing unless
/// the window is known, the scancode translates to a key code and the
/// keycode translates to a logical key; one keyboard-input event otherwise.
pub open spec fn spec_keyboard_events(
    windows: SdlWindows,
    window_id: WindowId,
    scancode: Option<Scancode>,
    keycode: Option<Keycode>,
    key_name: String,
    repeat: bool,
    pressed: bool,
) -> Seq<EngineEvent> {
    if !windows.has_window(window_id) {
        seq![]
    } else {
        match scancode {
            None => seq![],
            Some(sc) => match scancode_key_code(sc) {
                None => seq![],
                Some(key_code) => match keycode {
                    None => seq![],
                    Some(kc) => {
                        let logical = if keycode_is_character(kc) {
                            Some(Key::Character(key_name))
                        } else {
                            named_key_of(kc)
                        };
                        match logical {
                            None => seq![],
                            Some(logical_key) => seq![
                                (EngineEvent::KeyboardInput {
                                    window: windows.spec_entity_of(window_id),
                                    key_code,
                                    logical_key,
                                    pressed,
                                    repeat,
                                }),
                            ],
                        }
                    },
                },
            },
        }
    }
}

/// The engine events produced for one native event.
pub open spec fn spec_events(
    windows: SdlWindows,
    cursor: Option<(i32, i32)>,
    event: SdlEvent,
) -> Seq<EngineEvent> {
    match event {
        SdlEvent::Quit => seq![],
        SdlEvent::Window { .. } => seq![],
        SdlEvent::KeyDown { window_id, scancode, keycode, key_name, repeat } =>
            spec_keyboard_events(
            windows,
            window_id,
            scancode,
            keycode,
            key_name,
            repeat,
            true,
        ),
        SdlEvent::KeyUp { window_id, scancode, keycode, key_name, repeat } => spec_keyboard_events(
            windows,
            window_id,
            scancode,
            keycode,
            key_name,
            repeat,
            false,
        ),
        SdlEvent::MouseButtonDown { window_id, mouse_btn } => spec_mouse_button_events(
            windows,
            window_id,
            mouse_btn,
            true,
        ),
        SdlEvent::MouseButtonUp { window_id, mouse_btn } => spec_mouse_button_events(
            windows,
            window_id,
            mouse_btn,
            false,
        ),
        SdlEvent::MouseMotion { window_id, x, y, xrel, yrel } => {
            let motion = seq![(EngineEvent::MouseMotion { delta_x: xrel, delta_y: yrel })];
            if windows.has_window(window_id) {
                motion.push(
                    EngineEvent::CursorMoved {
                        window: windows.spec_entity_of(window_id),
                        physical_x: x,
                        physical_y: y,
                        previous: cursor,
                    },
                )
            } else {
                motion
            }
        },
        SdlEvent::MouseWheel { window_id, precise_x_bits, precise_y_bits } => {
            if windows.has_window(window_id) {
                seq![
                    (EngineEvent::MouseWheel {
                        window: windows.spec_entity_of(window_id),
                        x_bits: precise_x_bits,
                        y_bits: precise_y_bits,
                    }),
                ]
            } else {
                seq![]
            }
        },
        SdlEvent::TextInput { window_id, text } => {
            if windows.has_window(window_id) {
                seq![
                    (EngineEvent::ImeCommit {
                        window: windows.spec_entity_of(window_id),
                        value: text,
                    }),
                ]
            } else {
                seq![]
            }
        },
        SdlEvent::TextEditing { window_id, text, start, length } => {
            if windows.has_window(window_id) {
                seq![
                    (EngineEvent::ImePreedit {
                        window: windows.spec_entity_of(window_id),
                        value: text,
                        cursor_start: start as i64,
                        cursor_end: (start + length) as i64,
                    }),
                ]
            } else {
                seq![]
            }
        },
        SdlEvent::DropFile { window_id, filename } => {
            if windows.has_window(window_id) {
                seq![
                    (EngineEvent::DroppedFile {
                        window: windows.spec_entity_of(window_id),
                        path: filename,
                    }),
                ]
            } else {
                seq![]
            }
        },
        SdlEvent::FingerDown { finger_id, x_bits, y_bits, pressure_bits } => spec_touch_events(
            windows,
            TouchPhase::Started,
            finger_id,
            x_bits,
            y_bits,
            pressure_bits,
        ),
        SdlEvent::FingerUp { finger_id, x_bits, y_bits, pressure_bits } => spec_touch_events(
            windows,
            TouchPhase::Ended,
            finger_id,
            x_bits,
            y_bits,
            pressure_bits,
        ),
        SdlEvent::FingerMotion { finger_id, x_bits, y_bits, pressure_bits } => spec_touch_events(
            windows,
            TouchPhase::Moved,
            finger_id,
            x_bits,
            y_bits,
            pressure_bits,
        ),
        SdlEvent::Other => seq![],
    }
}

/// The engine events produced for one mouse button press or release.
pub open spec fn spec_mouse_button_events(
    windows: SdlWindows,
    window_id: WindowId,
    mouse_btn: SdlMouseButton,
    pressed: bool,
) -> Seq<EngineEvent> {
    if !windows.has_window(window_id) {
        seq![]
    } else {
        match mouse_button_of(mouse_btn) {
            None => seq![],
            Some(button) => seq![
                (EngineEvent::MouseButtonInput {
                    window: windows.spec_entity_of(window_id),
                    button,
                    pressed,
                }),
            ],
        }
    }
}

/// The engine events produced for one touch notification. Touch events
/// carry no window id, so they are routed to the entity of the native
/// window with id 0, and dropped when no such window is known.
pub open spec fn spec_touch_events(
    windows: SdlWindows,
    phase: TouchPhase,
    finger_id: i64,
    x_bits: u32,
    y_bits: u32,
    pressure_bits: u32,
) -> Seq<EngineEvent> {
    if windows.has_window(0) {
        seq![
            (EngineEvent::TouchInput {
                window: windows.spec_entity_of(0),
                phase,
                finger_id,
                x_bits,
                y_bits,
                pressure_bits,
            }),
        ]
    } else {
        seq![]
    }
}

/// Whether the event names a window that the table does not know, on the
/// paths where the run loop treats that lookup as fatal.
pub open spec fn spec_missing(windows: SdlWindows, event: SdlEvent) -> bool {
    match event {
        SdlEvent::Window { window_id, .. } => !windows.has_window(window_id),
        SdlEvent::KeyDown { window_id, .. } => !windows.has_window(window_id),
        SdlEvent::KeyUp { window_id, .. } => !windows.has_window(window_id),
        SdlEvent::MouseButtonDown { window_id, .. } => !windows.has_window(window_id),
        SdlEvent::MouseButtonUp { window_id, .. } => !windows.has_window(window_id),
        SdlEvent::MouseMotion { window_id, .. } => !windows.has_window(window_id),
        SdlEvent::MouseWheel { window_id, .. } => !windows.has_window(window_id),
        _ => false,
    }
}

/// The window event to apply to the state of its entity, if the event is a
/// window event for a known window.
pub open spec fn spec_window_dispatch(windows: SdlWindows, event: SdlEvent) -> Option<
    (EntityId, SdlWindowEvent),
> {
    match event {
        SdlEvent::Window { window_id, win_event } => {
            if windows.has_window(window_id) {
                Some((windows.spec_entity_of(window_id), win_event))
            } else {
                None
            }
        },
        _ => None,
    }
}

/// The physical cursor position to record for an entity: mouse motion over
/// a known window moves that window's cursor.
pub open spec fn spec_cursor_update(windows: SdlWindows, event: SdlEvent) -> Option<
    (EntityId, i32, i32),
> {
    match event {
        SdlEvent::MouseMotion { window_id, x, y, .. } => {
            if windows.has_window(window_id) {
                Some((windows.spec_entity_of(window_id), x, y))
            } else {
                None
            }
        },
        _ => None,
    }
}

/// Translates one key press or release. Returns whether the window lookup
/// failed, and the engine events to forward.
fn keyboard_event(
    windows: &SdlWindows,
    window_id: WindowId,
    scancode: Option<Scancode>,
    keycode: Option<Keycode>,
    key_name: String,
    repeat: bool,
    pressed: bool,
) -> (r: (bool, Vec<EngineEvent>))
    requires
        windows.wf(),
    ensures
        r.0 == !windows.has_window(window_id),
        r.1@ == spec_keyboard_events(
            *windows,
            window_id,
            scancode,
            keycode,
            key_name,
            repeat,
            pressed,
        ),
{
    let entity = match windows.get_window_entity(window_id) {
        Some(e) => e,
        None => {
            return (true, Vec::new());
        },
    };
    let key_code = match scancode {
        Some(sc) => match crate::keyboard::convert_sdl_scancode(sc) {
            Some(kc) => kc,
            None => {
                return (false, Vec::new());
            },
        },
        None => {
            return (false, Vec::new());
        },
    };
    let logical_key = match keycode {
        Some(kc) => match crate::keyboard::convert_sdl_keycode(kc, key_name) {
            Some(k) => k,
            None => {
                return (false, Vec::new());
            },
        },
        None => {
            return (false, Vec::new());
        },
    };
    let mut events: Vec<EngineEvent> = Vec::new();
    events.push(
        EngineEvent::KeyboardInput { window: entity, key_code, logical_key, pressed, repeat },
    );
    (false, events)
}

/// Applies a native window event to the window state of its entity and
/// returns the engine events to forward for it.
pub fn handle_sdl_window_event(
    win: &mut WindowState,
    entity: EntityId,
    win_event: SdlWindowEvent,
) -> (out: Vec<EngineEvent>)
    ensures
        *final(win) == spec_window_after(*old(win), win_event),
        out@ == spec_window_out_events(entity, win_event),
{
    let mut out: Vec<EngineEvent> = Vec::new();
    match win_event {
        SdlWindowEvent::Resized(width, height) | SdlWindowEvent::SizeChanged(width, height) => {
            win.physical_width = width;
            win.physical_height = height;
            out.push(
                EngineEvent::WindowResized {
                    window: entity,
                    physical_width: width,
                    physical_height: height,
                },
            );
        },
        SdlWindowEvent::Moved(x, y) => {
            out.push(EngineEvent::WindowMoved { window: entity, x, y });
        },
        SdlWindowEvent::Shown => {
            win.visible = true;
        },
        SdlWindowEvent::Hidden => {
            win.visible = false;
        },
        SdlWindowEvent::Maximized => {
            win.maximized = true;
        },
        SdlWindowEvent::Minimized => {
            win.minimized = true;
        },
        SdlWindowEvent::Enter => {
            out.push(EngineEvent::CursorEntered { window: entity });
        },
        SdlWindowEvent::Leave => {
            win.cursor_position = None;
            out.push(EngineEvent::CursorLeft { window: entity });
        },
        SdlWindowEvent::FocusGained => {
            win.focused = true;
            out.push(EngineEvent::WindowFocused { window: entity, focused: true });
        },
        SdlWindowEvent::FocusLost => {
            win.focused = false;
            out.push(EngineEvent::WindowFocused { window: entity, focused: false });
        },
        SdlWindowEvent::Close => {
            out.push(EngineEvent::WindowCloseRequested { window: entity });
        },
        _ => {},
    }
    out
}

/// The engine events that one native window event forwards.
pub open spec fn spec_window_out_events(entity: EntityId, ev: SdlWindowEvent) -> Seq<EngineEvent> {
    match ev {
        SdlWindowEvent::Resized(width, height) => seq![
            (EngineEvent::WindowResized {
                window: entity,
                physical_width: width,
                physical_height: height,
            }),
        ],
        SdlWindowEvent::SizeChanged(width, height) => seq![
            (EngineEvent::WindowResized {
                window: entity,
                physical_width: width,
                physical_height: height,
            }),
        ],
        SdlWindowEvent::Moved(x, y) => seq![(EngineEvent::WindowMoved { window: entity, x, y })],
        SdlWindowEvent::Enter => seq![(EngineEvent::CursorEntered { window: entity })],
        SdlWindowEvent::Leave => seq![(EngineEvent::CursorLeft { window: entity })],
        SdlWindowEvent::FocusGained => seq![
            (EngineEvent::WindowFocused { window: entity, focused: true }),
        ],
        SdlWindowEvent::FocusLost => seq![
            (EngineEvent::WindowFocused { window: entity, focused: false }),
        ],
        SdlWindowEvent::Close => seq![(EngineEvent::WindowCloseRequested { window: entity })],
        _ => seq![],
    }
}

/// Translates one native event into everything the run loop must do for it.
///
/// `cursor` is the physical cursor position currently recorded for the
/// window that the event names, as far as the caller tracks one; it becomes
/// the `previous` field of a cursor-moved event.
pub fn handle_sdl_event(windows: &SdlWindows, cursor: Option<(i32, i32)>, event: SdlEvent) -> (out:
    EventOutcome)
    requires
        windows.wf(),
    ensures
        out.state is Exit <==> event is Quit,
        out.missing_window == spec_missing(*windows, event),
        out.events@ == spec_events(*windows, cursor, event),
        out.window_event == spec_window_dispatch(*windows, event),
        out.cursor_update == spec_cursor_update(*windows, event),
{
    match event {
        SdlEvent::Quit => EventOutcome {
            state: HandleEventState::Exit,
            missing_window: false,
            events: Vec::new(),
            window_event: None,
            cursor_update: None,
        },
        SdlEvent::Window { window_id, win_event } => {
            match windows.get_window_entity(window_id) {
                Some(entity) => EventOutcome {
                    state: HandleEventState::Continue,
                    missing_window: false,
                    events: Vec::new(),
                    window_event: Some((entity, win_event)),
                    cursor_update: None,
                },
                None => EventOutcome {
                    state: HandleEventState::Continue,
                    missing_window: true,
                    events: Vec::new(),
                    window_event: None,
                    cursor_update: None,
                },
            }
        },
        SdlEvent::KeyDown { window_id, scancode, keycode, key_name, repeat } => {
            let (missing_window, events) = keyboard_event(
                windows,
                window_id,
                scancode,
                keycode,
                key_name,
                repeat,
                true,
            );
            EventOutcome {
                state: HandleEventState::Continue,
                missing_window,
                events,
                window_event: None,
                cursor_update: None,
            }
        },
        SdlEvent::KeyUp { window_id, scancode, keycode, key_name, repeat } => {
            let (missing_window, events) = keyboard_event(
                windows,
                window_id,
                scancode,
                keycode,
                key_name,
                repeat,
                false,
            );
            EventOutcome {
                state: HandleEventState::Continue,
                missing_window,
                events,
                window_event: None,
                cursor_update: None,
            }
        },
        SdlEvent::MouseButtonDown { window_id, mouse_btn } => mouse_button_outcome(
            windows,
            window_id,
            mouse_btn,
            true,
        ),
        SdlEvent::MouseButtonUp { window_id, mouse_btn } => mouse_button_outcome(
            windows,
            window_id,
            mouse_btn,
            false,
        ),
        SdlEvent::MouseMotion { window_id, x, y, xrel, yrel } => {
            let mut events: Vec<EngineEvent> = Vec::new();
            events.push(EngineEvent::MouseMotion { delta_x: xrel, delta_y: yrel });
            match windows.get_window_entity(window_id) {
                Some(entity) => {
                    events.push(
                        EngineEvent::CursorMoved {
                            window: entity,
                            physical_x: x,
                            physical_y: y,
                            previous: cursor,
                        },
                    );
                    EventOutcome {
                        state: HandleEventState::Continue,
                        missing_window: false,
                        events,
                        window_event: None,
                        cursor_update: Some((entity, x, y)),
                    }
                },
                None => EventOutcome {
                    state: HandleEventState::Continue,
                    missing_window: true,
                    events,
                    window_event: None,
                    cursor_update: None,
                },
            }
        },
        SdlEvent::MouseWheel { window_id, precise_x_bits, precise_y_bits } => {
            match windows.get_window_entity(window_id) {
                Some(entity) => {
                    let mut events: Vec<EngineEvent> = Vec::new();
                    events.push(
                        EngineEvent::MouseWheel {
                            window: entity,
                            x_bits: precise_x_bits,
                            y_bits: precise_y_bits,
                        },
                    );
                    EventOutcome {
                        state: HandleEventState::Continue,
                        missing_window: false,
                        events,
                        window_event: None,
                        cursor_update: None,
                    }
                },
                None => EventOutcome {
                    state: HandleEventState::Continue,
                    missing_window: true,
                    events: Vec::new(),
                    window_event: None,
                    cursor_update: None,
                },
            }
        },
        SdlEvent::TextInput { window_id, text } => {
            let mut events: Vec<EngineEvent> = Vec::new();
            match windows.get_window_entity(window_id) {
                Some(entity) => {
                    events.push(EngineEvent::ImeCommit { window: entity, value: text });
                },
                None => {},
            }
            EventOutcome {
                state: HandleEventState::Continue,
                missing_window: false,
                events,
                window_event: None,
                cursor_update: None,
            }
        },
        SdlEvent::TextEditing { window_id, text, start, length } => {
            let mut events: Vec<EngineEvent> = Vec::new();
            match windows.get_window_entity(window_id) {
                Some(entity) => {
                    let cursor_start: i64 = start as i64;
                    let cursor_end: i64 = start as i64 + length as i64;
                    events.push(
                        EngineEvent::ImePreedit {
                            window: entity,
                            value: text,
                            cursor_start,
                            cursor_end,
                        },
                    );
                },
                None => {},
            }
            EventOutcome {
                state: HandleEventState::Continue,
                missing_window: false,
                events,
                window_event: None,
                cursor_update: None,
            }
        },
        SdlEvent::DropFile { window_id, filename } => {
            let mut events: Vec<EngineEvent> = Vec::new();
            match windows.get_window_entity(window_id) {
                Some(entity) => {
                    events.push(EngineEvent::DroppedFile { window: entity, path: filename });
                },
                None => {},
            }
            EventOutcome {
                state: HandleEventState::Continue,
                missing_window: false,
                events,
                window_event: None,
                cursor_update: None,
            }
        },
        SdlEvent::FingerDown { finger_id, x_bits, y_bits, pressure_bits } => touch_outcome(
            windows,
            TouchPhase::Started,
            finger_id,
            x_bits,
            y_bits,
            pressure_bits,
        ),
        SdlEvent::FingerUp { finger_id, x_bits, y_bits, pressure_bits } => touch_outcome(
            windows,
            TouchPhase::Ended,
            finger_id,
            x_bits,
            y_bits,
            pressure_bits,
        ),
        SdlEvent::FingerMotion { finger_id, x_bits, y_bits, pressure_bits } => touch_outcome(
            windows,
            TouchPhase::Moved,
            finger_id,
            x_bits,
            y_bits,
            pressure_bits,
        ),
        SdlEvent::Other => EventOutcome {
            state: HandleEventState::Continue,
            missing_window: false,
            events: Vec::new(),
            window_event: None,
            cursor_update: None,
        },
    }
}

/// Translates one mouse button press or release into a run-loop outcome.
fn mouse_button_outcome(
    windows: &SdlWindows,
    window_id: WindowId,
    mouse_btn: SdlMouseButton,
    pressed: bool,
) -> (out: EventOutcome)
    requires
        windows.wf(),
    ensures
        out.state is Continue,
        out.missing_window == !windows.has_window(window_id),
        out.events@ == spec_mouse_button_events(*windows, window_id, mouse_btn, pressed),
        out.window_event is None,
        out.cursor_update is None,
{
    match windows.get_window_entity(window_id) {
        Some(entity) => {
            let mut events: Vec<EngineEvent> = Vec::new();
            match crate::mouse::convert_sdl_mouse_btn(mouse_btn) {
                Some(button) => {
                    events.push(EngineEvent::MouseButtonInput { window: entity, button, pressed });
                },
                None => {},
            }
            EventOutcome {
                state: HandleEventState::Continue,
                missing_window: false,
                events,
                window_event: None,
                cursor_update: None,
            }
        },
        None => EventOutcome {
            state: HandleEventState::Continue,
            missing_window: true,
            events: Vec::new(),
            window_event: None,
            cursor_update: None,
        },
    }
}

/// Translates one touch notification into a run-loop outcome.
fn touch_outcome(
    windows: &SdlWindows,
    phase: TouchPhase,
    finger_id: i64,
    x_bits: u32,
    y_bits: u32,
    pressure_bits: u32,
) -> (out: EventOutcome)
    requires
        windows.wf(),
    ensures
        out.state is Continue,
        out.missing_window == false,
        out.events@ == spec_touch_events(*windows, phase, finger_id, x_bits, y_bits, pressure_bits),
        out.window_event is None,
        out.cursor_update is None,
{
    let mut events: Vec<EngineEvent> = Vec::new();
    match windows.get_window_entity(0) {
        Some(entity) => {
            events.push(
                EngineEvent::TouchInput {
                    window: entity,
                    phase,
                    finger_id,
                    x_bits,
                    y_bits,
                    pressure_bits,
                },
            );
        },
        None => {},
    }
    EventOutcome {
        state: HandleEventState::Continue,
        missing_window: false,
        events,
        window_event: None,
        cursor_update: None,
    }
}

} // verus!
