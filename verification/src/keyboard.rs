use vstd::prelude::*;

verus! {

/// Position-based key identifier of the native window system, one variant
/// per scancode that the native library reports.
#[derive(Clone, Copy, Debug, PartialEq, Eq, Structural)]
pub enum Scancode {
    A,
    B,
    C,
    D,
    E,
    F,
    G,
    H,
    I,
    J,
    K,
    L,
    M,
    N,
    O,
    P,
    Q,
    R,
    S,
    T,
    U,
    V,
    W,
    X,
    Y,
    Z,
    Num1,
    Num2,
    Num3,
    Num4,
    Num5,
    Num6,
    Num7,
    Num8,
    Num9,
    Num0,
    Return,
    Escape,
    Backspace,
    Tab,
    Space,
    Minus,
    Equals,
    LeftBracket,
    RightBracket,
    Backslash,
    NonUsHash,
    Semicolon,
    Apostrophe,
    Grave,
    Comma,
    Period,
    Slash,
    CapsLock,
    F1,
    F2,
    F3,
    F4,
    F5,
    F6,
    F7,
    F8,
    F9,
    F10,
    F11,
    F12,
    PrintScreen,
    ScrollLock,
    Pause,
    Insert,
    Home,
    PageUp,
    Delete,
    End,
    PageDown,
    Right,
    Left,
    Down,
    Up,
    NumLockClear,
    KpDivide,
    KpMultiply,
    KpMinus,
    KpPlus,
    KpEnter,
    Kp1,
    Kp2,
    Kp3,
    Kp4,
    Kp5,
    Kp6,
    Kp7,
    Kp8,
    Kp9,
    Kp0,
    KpPeriod,
    NonUsBackslash,
    Application,
    Power,
    KpEquals,
    F13,
    F14,
    F15,
    F16,
    F17,
    F18,
    F19,
    F20,
    F21,
    F22,
    F23,
    F24,
    Execute,
    Help,
    Menu,
    Select,
    Stop,
    Again,
    Undo,
    Cut,
    Copy,
    Paste,
    Find,
    Mute,
    VolumeUp,
    VolumeDown,
    KpComma,
    KpEqualsAS400,
    International1,
    International2,
    International3,
    International4,
    International5,
    International6,
    International7,
    International8,
    International9,
    Lang1,
    Lang2,
    Lang3,
    Lang4,
    Lang5,
    Lang6,
    Lang7,
    Lang8,
    Lang9,
    AltErase,
    SysReq,
    Cancel,
    Clear,
    Prior,
    Return2,
    Separator,
    Out,
    Oper,
    ClearAgain,
    CrSel,
    ExSel,
    Kp00,
    Kp000,
    ThousandsSeparator,
    DecimalSeparator,
    CurrencyUnit,
    CurrencySubUnit,
    KpLeftParen,
    KpRightParen,
    KpLeftBrace,
    KpRightBrace,
    KpTab,
    KpBackspace,
    KpA,
    KpB,
    KpC,
    KpD,
    KpE,
    KpF,
    KpXor,
    KpPower,
    KpPercent,
    KpLess,
    KpGreater,
    KpAmpersand,
    KpDblAmpersand,
    KpVerticalBar,
    KpDblVerticalBar,
    KpColon,
    KpHash,
    KpSpace,
    KpAt,
    KpExclam,
    KpMemStore,
    KpMemRecall,
    KpMemClear,
    KpMemAdd,
    KpMemSubtract,
    KpMemMultiply,
    KpMemDivide,
    KpPlusMinus,
    KpClear,
    KpClearEntry,
    KpBinary,
    KpOctal,
    KpDecimal,
    KpHexadecimal,
    LCtrl,
    LShift,
    LAlt,
    LGui,
    RCtrl,
    RShift,
    RAlt,
    RGui,
    Mode,
    AudioNext,
    AudioPrev,
    AudioStop,
    AudioPlay,
    AudioMute,
    MediaSelect,
    Www,
    Mail,
    Calculator,
    Computer,
    AcSearch,
    AcHome,
    AcBack,
    AcForward,
    AcStop,
    AcRefresh,
    AcBookmarks,
    BrightnessDown,
    BrightnessUp,
    DisplaySwitch,
    KbdIllumToggle,
    KbdIllumDown,
    KbdIllumUp,
    Eject,
    Sleep,
    App1,
    App2,
    Num,
}

/// Position-based key identifier of the engine's keyboard model. Only the
/// variants that some native scancode translates to are represented.
#[derive(Clone, Copy, Debug, PartialEq, Eq, Structural)]
pub enum KeyCode {
    KeyA,
    KeyB,
    KeyC,
    KeyD,
    KeyE,
    KeyF,
    KeyG,
    KeyH,
    KeyI,
    KeyJ,
    KeyK,
    KeyL,
    KeyM,
    KeyN,
    KeyO,
    KeyP,
    KeyQ,
    KeyR,
    KeyS,
    KeyT,
    KeyU,
    KeyV,
    KeyW,
    KeyX,
    KeyY,
    KeyZ,
    Digit1,
    Digit2,
    Digit3,
    Digit4,
    Digit5,
    Digit6,
    Digit7,
    Digit8,
    Digit9,
    Digit0,
    Enter,
    Escape,
    Backspace,
    Tab,
    Space,
    Minus,
    Equal,
    BracketLeft,
    BracketRight,
    Backslash,
    Semicolon,
    Quote,
    Backquote,
    Comma,
    Period,
    Slash,
    CapsLock,
    F1,
    F2,
    F3,
    F4,
    F5,
    F6,
    F7,
    F8,
    F9,
    F10,
    F11,
    F12,
    PrintScreen,
    ScrollLock,
    Pause,
    Insert,
    Home,
    PageUp,
    Delete,
    End,
    PageDown,
    ArrowRight,
    ArrowLeft,
    ArrowDown,
    ArrowUp,
    NumpadDivide,
    NumpadMultiply,
    NumpadSubtract,
    NumpadAdd,
    NumpadEnter,
    Numpad1,
    Numpad2,
    Numpad3,
    Numpad4,
    Numpad5,
    Numpad6,
    Numpad7,
    Numpad8,
    Numpad9,
    Numpad0,
    IntlBackslash,
    ContextMenu,
    NumpadEqual,
    F13,
    F14,
    F15,
    F16,
    F17,
    F18,
    F19,
    F20,
    F21,
    F22,
    F23,
    F24,
    Help,
    Undo,
    Cut,
    Copy,
    Paste,
    Find,
    AudioVolumeMute,
    AudioVolumeUp,
    AudioVolumeDown,
    NumpadComma,
    Lang1,
    Lang2,
    Lang3,
    Lang4,
    Lang5,
    NumpadParenLeft,
    NumpadParenRight,
    NumpadBackspace,
    NumpadMemoryStore,
    NumpadMemoryRecall,
    NumpadMemoryClear,
    NumpadMemoryAdd,
    NumpadMemorySubtract,
    NumpadClear,
    NumpadClearEntry,
    NumpadDecimal,
    ControlLeft,
    ShiftLeft,
    AltLeft,
    SuperLeft,
    ControlRight,
    ShiftRight,
    AltRight,
    SuperRight,
    MediaTrackNext,
    MediaTrackPrevious,
    MediaStop,
    MediaPlayPause,
    LaunchMail,
    BrowserSearch,
    BrowserHome,
    BrowserBack,
    BrowserForward,
    BrowserStop,
    BrowserRefresh,
    BrowserFavorites,
    Eject,
    Sleep,
    NumLock,
}

/// The key code, if any, that the engine associates with a native scancode.
/// Scancodes with no engine equivalent translate to `None`.
pub open spec fn scancode_key_code(sc: Scancode) -> Option<KeyCode> {
    match sc {
        Scancode::A => Some(KeyCode::KeyA),
        Scancode::B => Some(KeyCode::KeyB),
        Scancode::C => Some(KeyCode::KeyC),
        Scancode::D => Some(KeyCode::KeyD),
        Scancode::E => Some(KeyCode::KeyE),
        Scancode::F => Some(KeyCode::KeyF),
        Scancode::G => Some(KeyCode::KeyG),
        Scancode::H => Some(KeyCode::KeyH),
        Scancode::I => Some(KeyCode::KeyI),
        Scancode::J => Some(KeyCode::KeyJ),
        Scancode::K => Some(KeyCode::KeyK),
        Scancode::L => Some(KeyCode::KeyL),
        Scancode::M => Some(KeyCode::KeyM),
        Scancode::N => Some(KeyCode::KeyN),
        Scancode::O => Some(KeyCode::KeyO),
        Scancode::P => Some(KeyCode::KeyP),
        Scancode::Q => Some(KeyCode::KeyQ),
        Scancode::R => Some(KeyCode::KeyR),
        Scancode::S => Some(KeyCode::KeyS),
        Scancode::T => Some(KeyCode::KeyT),
        Scancode::U => Some(KeyCode::KeyU),
        Scancode::V => Some(KeyCode::KeyV),
        Scancode::W => Some(KeyCode::KeyW),
        Scancode::X => Some(KeyCode::KeyX),
        Scancode::Y => Some(KeyCode::KeyY),
        Scancode::Z => Some(KeyCode::KeyZ),
        Scancode::Num1 => Some(KeyCode::Digit1),
        Scancode::Num2 => Some(KeyCode::Digit2),
        Scancode::Num3 => Some(KeyCode::Digit3),
        Scancode::Num4 => Some(KeyCode::Digit4),
        Scancode::Num5 => Some(KeyCode::Digit5),
        Scancode::Num6 => Some(KeyCode::Digit6),
        Scancode::Num7 => Some(KeyCode::Digit7),
        Scancode::Num8 => Some(KeyCode::Digit8),
        Scancode::Num9 => Some(KeyCode::Digit9),
        Scancode::Num0 => Some(KeyCode::Digit0),
        Scancode::Return => Some(KeyCode::Enter),
        Scancode::Escape => Some(KeyCode::Escape),
        Scancode::Backspace => Some(KeyCode::Backspace),
        Scancode::Tab => Some(KeyCode::Tab),
        Scancode::Space => Some(KeyCode::Space),
        Scancode::Minus => Some(KeyCode::Minus),
        Scancode::Equals => Some(KeyCode::Equal),
        Scancode::LeftBracket => Some(KeyCode::BracketLeft),
        Scancode::RightBracket => Some(KeyCode::BracketRight),
        Scancode::Backslash => Some(KeyCode::Backslash),
        Scancode::NonUsHash => None,
        Scancode::Semicolon => Some(KeyCode::Semicolon),
        Scancode::Apostrophe => Some(KeyCode::Quote),
        Scancode::Grave => Some(KeyCode::Backquote),
        Scancode::Comma => Some(KeyCode::Comma),
        Scancode::Period => Some(KeyCode::Period),
        Scancode::Slash => Some(KeyCode::Slash),
        Scancode::CapsLock => Some(KeyCode::CapsLock),
        Scancode::F1 => Some(KeyCode::F1),
        Scancode::F2 => Some(KeyCode::F2),
        Scancode::F3 => Some(KeyCode::F3),
        Scancode::F4 => Some(KeyCode::F4),
        Scancode::F5 => Some(KeyCode::F5),
        Scancode::F6 => Some(KeyCode::F6),
        Scancode::F7 => Some(KeyCode::F7),
        Scancode::F8 => Some(KeyCode::F8),
        Scancode::F9 => Some(KeyCode::F9),
        Scancode::F10 => Some(KeyCode::F10),
        Scancode::F11 => Some(KeyCode::F11),
        Scancode::F12 => Some(KeyCode::F12),
        Scancode::PrintScreen => Some(KeyCode::PrintScreen),
        Scancode::ScrollLock => Some(KeyCode::ScrollLock),
        Scancode::Pause => Some(KeyCode::Pause),
        Scancode::Insert => Some(KeyCode::Insert),
        Scancode::Home => Some(KeyCode::Home),
        Scancode::PageUp => Some(KeyCode::PageUp),
        Scancode::Delete => Some(KeyCode::Delete),
        Scancode::End => Some(KeyCode::End),
        Scancode::PageDown => Some(KeyCode::PageDown),
        Scancode::Right => Some(KeyCode::ArrowRight),
        Scancode::Left => Some(KeyCode::ArrowLeft),
        Scancode::Down => Some(KeyCode::ArrowDown),
        Scancode::Up => Some(KeyCode::ArrowUp),
        Scancode::NumLockClear => None,
        Scancode::KpDivide => Some(KeyCode::NumpadDivide),
        Scancode::KpMultiply => Some(KeyCode::NumpadMultiply),
        Scancode::KpMinus => Some(KeyCode::NumpadSubtract),
        Scancode::KpPlus => Some(KeyCode::NumpadAdd),
        Scancode::KpEnter => Some(KeyCode::NumpadEnter),
        Scancode::Kp1 => Some(KeyCode::Numpad1),
        Scancode::Kp2 => Some(KeyCode::Numpad2),
        Scancode::Kp3 => Some(KeyCode::Numpad3),
        Scancode::Kp4 => Some(KeyCode::Numpad4),
        Scancode::Kp5 => Some(KeyCode::Numpad5),
        Scancode::Kp6 => Some(KeyCode::Numpad6),
        Scancode::Kp7 => Some(KeyCode::Numpad7),
        Scancode::Kp8 => Some(KeyCode::Numpad8),
        Scancode::Kp9 => Some(KeyCode::Numpad9),
        Scancode::Kp0 => Some(KeyCode::Numpad0),
        Scancode::KpPeriod => None,
        Scancode::NonUsBackslash => Some(KeyCode::IntlBackslash),
        Scancode::Application => Some(KeyCode::ContextMenu),
        Scancode::Power => None,
        Scancode::KpEquals => Some(KeyCode::NumpadEqual),
        Scancode::F13 => Some(KeyCode::F13),
        Scancode::F14 => Some(KeyCode::F14),
        Scancode::F15 => Some(KeyCode::F15),
        Scancode::F16 => Some(KeyCode::F16),
        Scancode::F17 => Some(KeyCode::F17),
        Scancode::F18 => Some(KeyCode::F18),
        Scancode::F19 => Some(KeyCode::F19),
        Scancode::F20 => Some(KeyCode::F20),
        Scancode::F21 => Some(KeyCode::F21),
        Scancode::F22 => Some(KeyCode::F22),
        Scancode::F23 => Some(KeyCode::F23),
        Scancode::F24 => Some(KeyCode::F24),
        Scancode::Execute => None,
        Scancode::Help => Some(KeyCode::Help),
        Scancode::Menu => None,
        Scancode::Select => None,
        Scancode::Stop => None,
        Scancode::Again => None,
        Scancode::Undo => Some(KeyCode::Undo),
        Scancode::Cut => Some(KeyCode::Cut),
        Scancode::Copy => Some(KeyCode::Copy),
        Scancode::Paste => Some(KeyCode::Paste),
        Scancode::Find => Some(KeyCode::Find),
        Scancode::Mute => Some(KeyCode::AudioVolumeMute),
        Scancode::VolumeUp => Some(KeyCode::AudioVolumeUp),
        Scancode::VolumeDown => Some(KeyCode::AudioVolumeDown),
        Scancode::KpComma => Some(KeyCode::NumpadComma),
        Scancode::KpEqualsAS400 => Some(KeyCode::NumpadEqual),
        Scancode::International1 => None,
        Scancode::International2 => None,
        Scancode::International3 => None,
        Scancode::International4 => None,
        Scancode::International5 => None,
        Scancode::International6 => None,
        Scancode::International7 => None,
        Scancode::International8 => None,
        Scancode::International9 => None,
        Scancode::Lang1 => Some(KeyCode::Lang1),
        Scancode::Lang2 => Some(KeyCode::Lang2),
        Scancode::Lang3 => Some(KeyCode::Lang3),
        Scancode::Lang4 => Some(KeyCode::Lang4),
        Scancode::Lang5 => Some(KeyCode::Lang5),
        Scancode::Lang6 => None,
        Scancode::Lang7 => None,
        Scancode::Lang8 => None,
        Scancode::Lang9 => None,
        Scancode::AltErase => None,
        Scancode::SysReq => None,
        Scancode::Cancel => None,
        Scancode::Clear => None,
        Scancode::Prior => None,
        Scancode::Return2 => None,
        Scancode::Separator => None,
        Scancode::Out => None,
        Scancode::Oper => None,
        Scancode::ClearAgain => None,
        Scancode::CrSel => None,
        Scancode::ExSel => None,
        Scancode::Kp00 => None,
        Scancode::Kp000 => None,
        Scancode::ThousandsSeparator => None,
        Scancode::DecimalSeparator => None,
        Scancode::CurrencyUnit => None,
        Scancode::CurrencySubUnit => None,
        Scancode::KpLeftParen => Some(KeyCode::NumpadParenLeft),
        Scancode::KpRightParen => Some(KeyCode::NumpadParenRight),
        Scancode::KpLeftBrace => None,
        Scancode::KpRightBrace => None,
        Scancode::KpTab => None,
        Scancode::KpBackspace => Some(KeyCode::NumpadBackspace),
        Scancode::KpA => None,
        Scancode::KpB => None,
        Scancode::KpC => None,
        Scancode::KpD => None,
        Scancode::KpE => None,
        Scancode::KpF => None,
        Scancode::KpXor => None,
        Scancode::KpPower => None,
        Scancode::KpPercent => None,
        Scancode::KpLess => None,
        Scancode::KpGreater => None,
        Scancode::KpAmpersand => None,
        Scancode::KpDblAmpersand => None,
        Scancode::KpVerticalBar => None,
        Scancode::KpDblVerticalBar => None,
        Scancode::KpColon => None,
        Scancode::KpHash => None,
        Scancode::KpSpace => None,
        Scancode::KpAt => None,
        Scancode::KpExclam => None,
        Scancode::KpMemStore => Some(KeyCode::NumpadMemoryStore),
        Scancode::KpMemRecall => Some(KeyCode::NumpadMemoryRecall),
        Scancode::KpMemClear => Some(KeyCode::NumpadMemoryClear),
        Scancode::KpMemAdd => Some(KeyCode::NumpadMemoryAdd),
        Scancode::KpMemSubtract => Some(KeyCode::NumpadMemorySubtract),
        Scancode::KpMemMultiply => None,
        Scancode::KpMemDivide => None,
        Scancode::KpPlusMinus => None,
        Scancode::KpClear => Some(KeyCode::NumpadClear),
        Scancode::KpClearEntry => Some(KeyCode::NumpadClearEntry),
        Scancode::KpBinary => None,
        Scancode::KpOctal => None,
        Scancode::KpDecimal => Some(KeyCode::NumpadDecimal),
        Scancode::KpHexadecimal => None,
        Scancode::LCtrl => Some(KeyCode::ControlLeft),
        Scancode::LShift => Some(KeyCode::ShiftLeft),
        Scancode::LAlt => Some(KeyCode::AltLeft),
        Scancode::LGui => Some(KeyCode::SuperLeft),
        Scancode::RCtrl => Some(KeyCode::ControlRight),
        Scancode::RShift => Some(KeyCode::ShiftRight),
        Scancode::RAlt => Some(KeyCode::AltRight),
        Scancode::RGui => Some(KeyCode::SuperRight),
        Scancode::Mode => None,
        Scancode::AudioNext => Some(KeyCode::MediaTrackNext),
        Scancode::AudioPrev => Some(KeyCode::MediaTrackPrevious),
        Scancode::AudioStop => Some(KeyCode::MediaStop),
        Scancode::AudioPlay => Some(KeyCode::MediaPlayPause),
        Scancode::AudioMute => Some(KeyCode::AudioVolumeMute),
        Scancode::MediaSelect => Some(KeyCode::MediaPlayPause),
        Scancode::Www => None,
        Scancode::Mail => Some(KeyCode::LaunchMail),
        Scancode::Calculator => None,
        Scancode::Computer => None,
        Scancode::AcSearch => Some(KeyCode::BrowserSearch),
        Scancode::AcHome => Some(KeyCode::BrowserHome),
        Scancode::AcBack => Some(KeyCode::BrowserBack),
        Scancode::AcForward => Some(KeyCode::BrowserForward),
        Scancode::AcStop => Some(KeyCode::BrowserStop),
        Scancode::AcRefresh => Some(KeyCode::BrowserRefresh),
        Scancode::AcBookmarks => Some(KeyCode::BrowserFavorites),
        Scancode::BrightnessDown => None,
        Scancode::BrightnessUp => None,
        Scancode::DisplaySwitch => None,
        Scancode::KbdIllumToggle => None,
        Scancode::KbdIllumDown => None,
        Scancode::KbdIllumUp => None,
        Scancode::Eject => Some(KeyCode::Eject),
        Scancode::Sleep => Some(KeyCode::Sleep),
        Scancode::App1 => None,
        Scancode::App2 => None,
        Scancode::Num => Some(KeyCode::NumLock),
    }
}

/// Translates a native scancode into the engine's key code.
pub fn convert_sdl_scancode(scancode: Scancode) -> (r: Option<KeyCode>)
    ensures
        r == scancode_key_code(scancode),
{
    match scancode {
        Scancode::A => Some(KeyCode::KeyA),
        Scancode::B => Some(KeyCode::KeyB),
        Scancode::C => Some(KeyCode::KeyC),
        Scancode::D => Some(KeyCode::KeyD),
        Scancode::E => Some(KeyCode::KeyE),
        Scancode::F => Some(KeyCode::KeyF),
        Scancode::G => Some(KeyCode::KeyG),
        Scancode::H => Some(KeyCode::KeyH),
        Scancode::I => Some(KeyCode::KeyI),
        Scancode::J => Some(KeyCode::KeyJ),
        Scancode::K => Some(KeyCode::KeyK),
        Scancode::L => Some(KeyCode::KeyL),
        Scancode::M => Some(KeyCode::KeyM),
        Scancode::N => Some(KeyCode::KeyN),
        Scancode::O => Some(KeyCode::KeyO),
        Scancode::P => Some(KeyCode::KeyP),
        Scancode::Q => Some(KeyCode::KeyQ),
        Scancode::R => Some(KeyCode::KeyR),
        Scancode::S => Some(KeyCode::KeyS),
        Scancode::T => Some(KeyCode::KeyT),
        Scancode::U => Some(KeyCode::KeyU),
        Scancode::V => Some(KeyCode::KeyV),
        Scancode::W => Some(KeyCode::KeyW),
        Scancode::X => Some(KeyCode::KeyX),
        Scancode::Y => Some(KeyCode::KeyY),
        Scancode::Z => Some(KeyCode::KeyZ),
        Scancode::Num1 => Some(KeyCode::Digit1),
        Scancode::Num2 => Some(KeyCode::Digit2),
        Scancode::Num3 => Some(KeyCode::Digit3),
        Scancode::Num4 => Some(KeyCode::Digit4),
        Scancode::Num5 => Some(KeyCode::Digit5),
        Scancode::Num6 => Some(KeyCode::Digit6),
        Scancode::Num7 => Some(KeyCode::Digit7),
        Scancode::Num8 => Some(KeyCode::Digit8),
        Scancode::Num9 => Some(KeyCode::Digit9),
        Scancode::Num0 => Some(KeyCode::Digit0),
        Scancode::Return => Some(KeyCode::Enter),
        Scancode::Escape => Some(KeyCode::Escape),
        Scancode::Backspace => Some(KeyCode::Backspace),
        Scancode::Tab => Some(KeyCode::Tab),
        Scancode::Space => Some(KeyCode::Space),
        Scancode::Minus => Some(KeyCode::Minus),
        Scancode::Equals => Some(KeyCode::Equal),
        Scancode::LeftBracket => Some(KeyCode::BracketLeft),
        Scancode::RightBracket => Some(KeyCode::BracketRight),
        Scancode::Backslash => Some(KeyCode::Backslash),
        Scancode::NonUsHash => None,
        Scancode::Semicolon => Some(KeyCode::Semicolon),
        Scancode::Apostrophe => Some(KeyCode::Quote),
        Scancode::Grave => Some(KeyCode::Backquote),
        Scancode::Comma => Some(KeyCode::Comma),
        Scancode::Period => Some(KeyCode::Period),
        Scancode::Slash => Some(KeyCode::Slash),
        Scancode::CapsLock => Some(KeyCode::CapsLock),
        Scancode::F1 => Some(KeyCode::F1),
        Scancode::F2 => Some(KeyCode::F2),
        Scancode::F3 => Some(KeyCode::F3),
        Scancode::F4 => Some(KeyCode::F4),
        Scancode::F5 => Some(KeyCode::F5),
        Scancode::F6 => Some(KeyCode::F6),
        Scancode::F7 => Some(KeyCode::F7),
        Scancode::F8 => Some(KeyCode::F8),
        Scancode::F9 => Some(KeyCode::F9),
        Scancode::F10 => Some(KeyCode::F10),
        Scancode::F11 => Some(KeyCode::F11),
        Scancode::F12 => Some(KeyCode::F12),
        Scancode::PrintScreen => Some(KeyCode::PrintScreen),
        Scancode::ScrollLock => Some(KeyCode::ScrollLock),
        Scancode::Pause => Some(KeyCode::Pause),
        Scancode::Insert => Some(KeyCode::Insert),
        Scancode::Home => Some(KeyCode::Home),
        Scancode::PageUp => Some(KeyCode::PageUp),
        Scancode::Delete => Some(KeyCode::Delete),
        Scancode::End => Some(KeyCode::End),
        Scancode::PageDown => Some(KeyCode::PageDown),
        Scancode::Right => Some(KeyCode::ArrowRight),
        Scancode::Left => Some(KeyCode::ArrowLeft),
        Scancode::Down => Some(KeyCode::ArrowDown),
        Scancode::Up => Some(KeyCode::ArrowUp),
        Scancode::NumLockClear => None,
        Scancode::KpDivide => Some(KeyCode::NumpadDivide),
        Scancode::KpMultiply => Some(KeyCode::NumpadMultiply),
        Scancode::KpMinus => Some(KeyCode::NumpadSubtract),
        Scancode::KpPlus => Some(KeyCode::NumpadAdd),
        Scancode::KpEnter => Some(KeyCode::NumpadEnter),
        Scancode::Kp1 => Some(KeyCode::Numpad1),
        Scancode::Kp2 => Some(KeyCode::Numpad2),
        Scancode::Kp3 => Some(KeyCode::Numpad3),
        Scancode::Kp4 => Some(KeyCode::Numpad4),
        Scancode::Kp5 => Some(KeyCode::Numpad5),
        Scancode::Kp6 => Some(KeyCode::Numpad6),
        Scancode::Kp7 => Some(KeyCode::Numpad7),
        Scancode::Kp8 => Some(KeyCode::Numpad8),
        Scancode::Kp9 => Some(KeyCode::Numpad9),
        Scancode::Kp0 => Some(KeyCode::Numpad0),
        Scancode::KpPeriod => None,
        Scancode::NonUsBackslash => Some(KeyCode::IntlBackslash),
        Scancode::Application => Some(KeyCode::ContextMenu),
        Scancode::Power => None,
        Scancode::KpEquals => Some(KeyCode::NumpadEqual),
        Scancode::F13 => Some(KeyCode::F13),
        Scancode::F14 => Some(KeyCode::F14),
        Scancode::F15 => Some(KeyCode::F15),
        Scancode::F16 => Some(KeyCode::F16),
        Scancode::F17 => Some(KeyCode::F17),
        Scancode::F18 => Some(KeyCode::F18),
        Scancode::F19 => Some(KeyCode::F19),
        Scancode::F20 => Some(KeyCode::F20),
        Scancode::F21 => Some(KeyCode::F21),
        Scancode::F22 => Some(KeyCode::F22),
        Scancode::F23 => Some(KeyCode::F23),
        Scancode::F24 => Some(KeyCode::F24),
        Scancode::Execute => None,
        Scancode::Help => Some(KeyCode::Help),
        Scancode::Menu => None,
        Scancode::Select => None,
        Scancode::Stop => None,
        Scancode::Again => None,
        Scancode::Undo => Some(KeyCode::Undo),
        Scancode::Cut => Some(KeyCode::Cut),
        Scancode::Copy => Some(KeyCode::Copy),
        Scancode::Paste => Some(KeyCode::Paste),
        Scancode::Find => Some(KeyCode::Find),
        Scancode::Mute => Some(KeyCode::AudioVolumeMute),
        Scancode::VolumeUp => Some(KeyCode::AudioVolumeUp),
        Scancode::VolumeDown => Some(KeyCode::AudioVolumeDown),
        Scancode::KpComma => Some(KeyCode::NumpadComma),
        Scancode::KpEqualsAS400 => Some(KeyCode::NumpadEqual),
        Scancode::International1 => None,
        Scancode::International2 => None,
        Scancode::International3 => None,
        Scancode::International4 => None,
        Scancode::International5 => None,
        Scancode::International6 => None,
        Scancode::International7 => None,
        Scancode::International8 => None,
        Scancode::International9 => None,
        Scancode::Lang1 => Some(KeyCode::Lang1),
        Scancode::Lang2 => Some(KeyCode::Lang2),
        Scancode::Lang3 => Some(KeyCode::Lang3),
        Scancode::Lang4 => Some(KeyCode::Lang4),
        Scancode::Lang5 => Some(KeyCode::Lang5),
        Scancode::Lang6 => None,
        Scancode::Lang7 => None,
        Scancode::Lang8 => None,
        Scancode::Lang9 => None,
        Scancode::AltErase => None,
        Scancode::SysReq => None,
        Scancode::Cancel => None,
        Scancode::Clear => None,
        Scancode::Prior => None,
        Scancode::Return2 => None,
        Scancode::Separator => None,
        Scancode::Out => None,
        Scancode::Oper => None,
        Scancode::ClearAgain => None,
        Scancode::CrSel => None,
        Scancode::ExSel => None,
        Scancode::Kp00 => None,
        Scancode::Kp000 => None,
        Scancode::ThousandsSeparator => None,
        Scancode::DecimalSeparator => None,
        Scancode::CurrencyUnit => None,
        Scancode::CurrencySubUnit => None,
        Scancode::KpLeftParen => Some(KeyCode::NumpadParenLeft),
        Scancode::KpRightParen => Some(KeyCode::NumpadParenRight),
        Scancode::KpLeftBrace => None,
        Scancode::KpRightBrace => None,
        Scancode::KpTab => None,
        Scancode::KpBackspace => Some(KeyCode::NumpadBackspace),
        Scancode::KpA => None,
        Scancode::KpB => None,
        Scancode::KpC => None,
        Scancode::KpD => None,
        Scancode::KpE => None,
        Scancode::KpF => None,
        Scancode::KpXor => None,
        Scancode::KpPower => None,
        Scancode::KpPercent => None,
        Scancode::KpLess => None,
        Scancode::KpGreater => None,
        Scancode::KpAmpersand => None,
        Scancode::KpDblAmpersand => None,
        Scancode::KpVerticalBar => None,
        Scancode::KpDblVerticalBar => None,
        Scancode::KpColon => None,
        Scancode::KpHash => None,
        Scancode::KpSpace => None,
        Scancode::KpAt => None,
        Scancode::KpExclam => None,
        Scancode::KpMemStore => Some(KeyCode::NumpadMemoryStore),
        Scancode::KpMemRecall => Some(KeyCode::NumpadMemoryRecall),
        Scancode::KpMemClear => Some(KeyCode::NumpadMemoryClear),
        Scancode::KpMemAdd => Some(KeyCode::NumpadMemoryAdd),
        Scancode::KpMemSubtract => Some(KeyCode::NumpadMemorySubtract),
        Scancode::KpMemMultiply => None,
        Scancode::KpMemDivide => None,
        Scancode::KpPlusMinus => None,
        Scancode::KpClear => Some(KeyCode::NumpadClear),
        Scancode::KpClearEntry => Some(KeyCode::NumpadClearEntry),
        Scancode::KpBinary => None,
        Scancode::KpOctal => None,
        Scancode::KpDecimal => Some(KeyCode::NumpadDecimal),
        Scancode::KpHexadecimal => None,
        Scancode::LCtrl => Some(KeyCode::ControlLeft),
        Scancode::LShift => Some(KeyCode::ShiftLeft),
        Scancode::LAlt => Some(KeyCode::AltLeft),
        Scancode::LGui => Some(KeyCode::SuperLeft),
        Scancode::RCtrl => Some(KeyCode::ControlRight),
        Scancode::RShift => Some(KeyCode::ShiftRight),
        Scancode::RAlt => Some(KeyCode::AltRight),
        Scancode::RGui => Some(KeyCode::SuperRight),
        Scancode::Mode => None,
        Scancode::AudioNext => Some(KeyCode::MediaTrackNext),
        Scancode::AudioPrev => Some(KeyCode::MediaTrackPrevious),
        Scancode::AudioStop => Some(KeyCode::MediaStop),
        Scancode::AudioPlay => Some(KeyCode::MediaPlayPause),
        Scancode::AudioMute => Some(KeyCode::AudioVolumeMute),
        Scancode::MediaSelect => Some(KeyCode::MediaPlayPause),
        Scancode::Www => None,
        Scancode::Mail => Some(KeyCode::LaunchMail),
        Scancode::Calculator => None,
        Scancode::Computer => None,
        Scancode::AcSearch => Some(KeyCode::BrowserSearch),
        Scancode::AcHome => Some(KeyCode::BrowserHome),
        Scancode::AcBack => Some(KeyCode::BrowserBack),
        Scancode::AcForward => Some(KeyCode::BrowserForward),
        Scancode::AcStop => Some(KeyCode::BrowserStop),
        Scancode::AcRefresh => Some(KeyCode::BrowserRefresh),
        Scancode::AcBookmarks => Some(KeyCode::BrowserFavorites),
        Scancode::BrightnessDown => None,
        Scancode::BrightnessUp => None,
        Scancode::DisplaySwitch => None,
        Scancode::KbdIllumToggle => None,
        Scancode::KbdIllumDown => None,
        Scancode::KbdIllumUp => None,
        Scancode::Eject => Some(KeyCode::Eject),
        Scancode::Sleep => Some(KeyCode::Sleep),
        Scancode::App1 => None,
        Scancode::App2 => None,
        Scancode::Num => Some(KeyCode::NumLock),
    }
}

/// Symbol-based key identifier of the native window system, one variant per
/// keycode that the translation distinguishes. `Other` stands for every
/// remaining native keycode; those translate to no logical key.
#[derive(Clone, Copy, Debug, PartialEq, Eq, Structural)]
pub enum Keycode {
    A,
    B,
    C,
    D,
    E,
    F,
    G,
    H,
    I,
    J,
    K,
    L,
    M,
    N,
    O,
    P,
    Q,
    R,
    S,
    T,
    U,
    V,
    W,
    X,
    Y,
    Z,
    Num0,
    Num1,
    Num2,
    Num3,
    Num4,
    Num5,
    Num6,
    Num7,
    Num8,
    Num9,
    Kp0,
    Kp1,
    Kp2,
    Kp3,
    Kp4,
    Kp5,
    Kp6,
    Kp7,
    Kp8,
    Kp9,
    KpPeriod,
    KpDivide,
    KpMultiply,
    KpMinus,
    KpPlus,
    KpEquals,
    Exclaim,
    QuoteDbl,
    Hash,
    Dollar,
    Percent,
    Ampersand,
    Quote,
    LeftParen,
    RightParen,
    Asterisk,
    Plus,
    Comma,
    Minus,
    Period,
    Slash,
    Colon,
    Semicolon,
    Less,
    Equals,
    Greater,
    Question,
    At,
    LeftBracket,
    Backslash,
    RightBracket,
    Caret,
    Underscore,
    Backquote,
    F1,
    F2,
    F3,
    F4,
    F5,
    F6,
    F7,
    F8,
    F9,
    F10,
    F11,
    F12,
    F13,
    F14,
    F15,
    F16,
    F17,
    F18,
    F19,
    F20,
    F21,
    F22,
    F23,
    F24,
    Insert,
    Home,
    End,
    PageUp,
    PageDown,
    Up,
    Down,
    Left,
    Right,
    Backspace,
    Tab,
    Return,
    Escape,
    Space,
    Delete,
    CapsLock,
    ScrollLock,
    NumLockClear,
    PrintScreen,
    Pause,
    Clear,
    Select,
    Execute,
    Help,
    Application,
    LCtrl,
    RCtrl,
    LShift,
    RShift,
    LAlt,
    RAlt,
    LGui,
    RGui,
    Mode,
    AudioNext,
    AudioPrev,
    AudioStop,
    AudioPlay,
    AudioMute,
    VolumeUp,
    VolumeDown,
    MediaSelect,
    Mail,
    Calculator,
    Computer,
    AcSearch,
    AcHome,
    AcBack,
    AcForward,
    AcStop,
    AcRefresh,
    AcBookmarks,
    Other,
}

/// Logical key of the engine's keyboard model. `Character` carries the name
/// that the native library reports for the key.
#[derive(Clone, Debug, PartialEq, Eq)]
pub enum Key {
    Character(String),
    F1,
    F2,
    F3,
    F4,
    F5,
    F6,
    F7,
    F8,
    F9,
    F10,
    F11,
    F12,
    F13,
    F14,
    F15,
    F16,
    F17,
    F18,
    F19,
    F20,
    F21,
    F22,
    F23,
    F24,
    Insert,
    Home,
    End,
    PageUp,
    PageDown,
    ArrowUp,
    ArrowDown,
    ArrowLeft,
    ArrowRight,
    Backspace,
    Tab,
    Enter,
    Escape,
    Space,
    Delete,
    CapsLock,
    ScrollLock,
    NumLock,
    PrintScreen,
    Pause,
    Clear,
    Select,
    Execute,
    Help,
    ContextMenu,
    Control,
    Shift,
    Alt,
    Super,
    ModeChange,
    MediaTrackNext,
    MediaTrackPrevious,
    MediaStop,
    MediaPlay,
    AudioVolumeMute,
    AudioVolumeUp,
    AudioVolumeDown,
    LaunchMediaPlayer,
    LaunchMail,
    LaunchApplication2,
    LaunchApplication1,
    BrowserSearch,
    BrowserHome,
    BrowserBack,
    BrowserForward,
    BrowserStop,
    BrowserRefresh,
    BrowserFavorites,
}

/// Whether the keycode translates to a `Key::Character` carrying the native
/// key name: letters, digits, keypad keys and symbol keys do.
pub open spec fn keycode_is_character(kc: Keycode) -> bool {
    match kc {
        Keycode::A => true,
        Keycode::B => true,
        Keycode::C => true,
        Keycode::D => true,
        Keycode::E => true,
        Keycode::F => true,
        Keycode::G => true,
        Keycode::H => true,
        Keycode::I => true,
        Keycode::J => true,
        Keycode::K => true,
        Keycode::L => true,
        Keycode::M => true,
        Keycode::N => true,
        Keycode::O => true,
        Keycode::P => true,
        Keycode::Q => true,
        Keycode::R => true,
        Keycode::S => true,
        Keycode::T => true,
        Keycode::U => true,
        Keycode::V => true,
        Keycode::W => true,
        Keycode::X => true,
        Keycode::Y => true,
        Keycode::Z => true,
        Keycode::Num0 => true,
        Keycode::Num1 => true,
        Keycode::Num2 => true,
        Keycode::Num3 => true,
        Keycode::Num4 => true,
        Keycode::Num5 => true,
        Keycode::Num6 => true,
        Keycode::Num7 => true,
        Keycode::Num8 => true,
        Keycode::Num9 => true,
        Keycode::Kp0 => true,
        Keycode::Kp1 => true,
        Keycode::Kp2 => true,
        Keycode::Kp3 => true,
        Keycode::Kp4 => true,
        Keycode::Kp5 => true,
        Keycode::Kp6 => true,
        Keycode::Kp7 => true,
        Keycode::Kp8 => true,
        Keycode::Kp9 => true,
        Keycode::KpPeriod => true,
        Keycode::KpDivide => true,
        Keycode::KpMultiply => true,
        Keycode::KpMinus => true,
        Keycode::KpPlus => true,
        Keycode::KpEquals => true,
        Keycode::Exclaim => true,
        Keycode::QuoteDbl => true,
        Keycode::Hash => true,
        Keycode::Dollar => true,
        Keycode::Percent => true,
        Keycode::Ampersand => true,
        Keycode::Quote => true,
        Keycode::LeftParen => true,
        Keycode::RightParen => true,
        Keycode::Asterisk => true,
        Keycode::Plus => true,
        Keycode::Comma => true,
        Keycode::Minus => true,
        Keycode::Period => true,
        Keycode::Slash => true,
        Keycode::Colon => true,
        Keycode::Semicolon => true,
        Keycode::Less => true,
        Keycode::Equals => true,
        Keycode::Greater => true,
        Keycode::Question => true,
        Keycode::At => true,
        Keycode::LeftBracket => true,
        Keycode::Backslash => true,
        Keycode::RightBracket => true,
        Keycode::Caret => true,
        Keycode::Underscore => true,
        Keycode::Backquote => true,
        _ => false,
    }
}

/// The named logical key, if any, for a keycode that does not translate to
/// `Key::Character`.
pub open spec fn named_key_of(kc: Keycode) -> Option<Key> {
    match kc {
        Keycode::F1 => Some(Key::F1),
        Keycode::F2 => Some(Key::F2),
        Keycode::F3 => Some(Key::F3),
        Keycode::F4 => Some(Key::F4),
        Keycode::F5 => Some(Key::F5),
        Keycode::F6 => Some(Key::F6),
        Keycode::F7 => Some(Key::F7),
        Keycode::F8 => Some(Key::F8),
        Keycode::F9 => Some(Key::F9),
        Keycode::F10 => Some(Key::F10),
        Keycode::F11 => Some(Key::F11),
        Keycode::F12 => Some(Key::F12),
        Keycode::F13 => Some(Key::F13),
        Keycode::F14 => Some(Key::F14),
        Keycode::F15 => Some(Key::F15),
        Keycode::F16 => Some(Key::F16),
        Keycode::F17 => Some(Key::F17),
        Keycode::F18 => Some(Key::F18),
        Keycode::F19 => Some(Key::F19),
        Keycode::F20 => Some(Key::F20),
        Keycode::F21 => Some(Key::F21),
        Keycode::F22 => Some(Key::F22),
        Keycode::F23 => Some(Key::F23),
        Keycode::F24 => Some(Key::F24),
        Keycode::Insert => Some(Key::Insert),
        Keycode::Home => Some(Key::Home),
        Keycode::End => Some(Key::End),
        Keycode::PageUp => Some(Key::PageUp),
        Keycode::PageDown => Some(Key::PageDown),
        Keycode::Up => Some(Key::ArrowUp),
        Keycode::Down => Some(Key::ArrowDown),
        Keycode::Left => Some(Key::ArrowLeft),
        Keycode::Right => Some(Key::ArrowRight),
        Keycode::Backspace => Some(Key::Backspace),
        Keycode::Tab => Some(Key::Tab),
        Keycode::Return => Some(Key::Enter),
        Keycode::Escape => Some(Key::Escape),
        Keycode::Space => Some(Key::Space),
        Keycode::Delete => Some(Key::Delete),
        Keycode::CapsLock => Some(Key::CapsLock),
        Keycode::ScrollLock => Some(Key::ScrollLock),
        Keycode::NumLockClear => Some(Key::NumLock),
        Keycode::PrintScreen => Some(Key::PrintScreen),
        Keycode::Pause => Some(Key::Pause),
        Keycode::Clear => Some(Key::Clear),
        Keycode::Select => Some(Key::Select),
        Keycode::Execute => Some(Key::Execute),
        Keycode::Help => Some(Key::Help),
        Keycode::Application => Some(Key::ContextMenu),
        Keycode::LCtrl => Some(Key::Control),
        Keycode::RCtrl => Some(Key::Control),
        Keycode::LShift => Some(Key::Shift),
        Keycode::RShift => Some(Key::Shift),
        Keycode::LAlt => Some(Key::Alt),
        Keycode::RAlt => Some(Key::Alt),
        Keycode::LGui => Some(Key::Super),
        Keycode::RGui => Some(Key::Super),
        Keycode::Mode => Some(Key::ModeChange),
        Keycode::AudioNext => Some(Key::MediaTrackNext),
        Keycode::AudioPrev => Some(Key::MediaTrackPrevious),
        Keycode::AudioStop => Some(Key::MediaStop),
        Keycode::AudioPlay => Some(Key::MediaPlay),
        Keycode::AudioMute => Some(Key::AudioVolumeMute),
        Keycode::VolumeUp => Some(Key::AudioVolumeUp),
        Keycode::VolumeDown => Some(Key::AudioVolumeDown),
        Keycode::MediaSelect => Some(Key::LaunchMediaPlayer),
        Keycode::Mail => Some(Key::LaunchMail),
        Keycode::Calculator => Some(Key::LaunchApplication2),
        Keycode::Computer => Some(Key::LaunchApplication1),
        Keycode::AcSearch => Some(Key::BrowserSearch),
        Keycode::AcHome => Some(Key::BrowserHome),
        Keycode::AcBack => Some(Key::BrowserBack),
        Keycode::AcForward => Some(Key::BrowserForward),
        Keycode::AcStop => Some(Key::BrowserStop),
        Keycode::AcRefresh => Some(Key::BrowserRefresh),
        Keycode::AcBookmarks => Some(Key::BrowserFavorites),
        _ => None,
    }
}

/// Translates a native keycode into the engine's logical key. `name` is the
/// key name that the native library reports for the keycode; it becomes the
/// payload of `Key::Character` for character-producing keys.
pub fn convert_sdl_keycode(keycode: Keycode, name: String) -> (r: Option<Key>)
    ensures
        keycode_is_character(keycode) ==> r == Some(Key::Character(name)),
        !keycode_is_character(keycode) ==> r == named_key_of(keycode),
{
    match keycode {
        Keycode::A
        | Keycode::B
        | Keycode::C
        | Keycode::D
        | Keycode::E
        | Keycode::F
        | Keycode::G
        | Keycode::H
        | Keycode::I
        | Keycode::J
        | Keycode::K
        | Keycode::L
        | Keycode::M
        | Keycode::N
        | Keycode::O
        | Keycode::P
        | Keycode::Q
        | Keycode::R
        | Keycode::S
        | Keycode::T
        | Keycode::U
        | Keycode::V
        | Keycode::W
        | Keycode::X
        | Keycode::Y
        | Keycode::Z
        | Keycode::Num0
        | Keycode::Num1
        | Keycode::Num2
        | Keycode::Num3
        | Keycode::Num4
        | Keycode::Num5
        | Keycode::Num6
        | Keycode::Num7
        | Keycode::Num8
        | Keycode::Num9
        | Keycode::Kp0
        | Keycode::Kp1
        | Keycode::Kp2
        | Keycode::Kp3
        | Keycode::Kp4
        | Keycode::Kp5
        | Keycode::Kp6
        | Keycode::Kp7
        | Keycode::Kp8
        | Keycode::Kp9
        | Keycode::KpPeriod
        | Keycode::KpDivide
        | Keycode::KpMultiply
        | Keycode::KpMinus
        | Keycode::KpPlus
        | Keycode::KpEquals
        | Keycode::Exclaim
        | Keycode::QuoteDbl
        | Keycode::Hash
        | Keycode::Dollar
        | Keycode::Percent
        | Keycode::Ampersand
        | Keycode::Quote
        | Keycode::LeftParen
        | Keycode::RightParen
        | Keycode::Asterisk
        | Keycode::Plus
        | Keycode::Comma
        | Keycode::Minus
        | Keycode::Period
        | Keycode::Slash
        | Keycode::Colon
        | Keycode::Semicolon
        | Keycode::Less
        | Keycode::Equals
        | Keycode::Greater
        | Keycode::Question
        | Keycode::At
        | Keycode::LeftBracket
        | Keycode::Backslash
        | Keycode::RightBracket
        | Keycode::Caret
        | Keycode::Underscore
        | Keycode::Backquote => Some(Key::Character(name)),
        Keycode::F1 => Some(Key::F1),
        Keycode::F2 => Some(Key::F2),
        Keycode::F3 => Some(Key::F3),
        Keycode::F4 => Some(Key::F4),
        Keycode::F5 => Some(Key::F5),
        Keycode::F6 => Some(Key::F6),
        Keycode::F7 => Some(Key::F7),
        Keycode::F8 => Some(Key::F8),
        Keycode::F9 => Some(Key::F9),
        Keycode::F10 => Some(Key::F10),
        Keycode::F11 => Some(Key::F11),
        Keycode::F12 => Some(Key::F12),
        Keycode::F13 => Some(Key::F13),
        Keycode::F14 => Some(Key::F14),
        Keycode::F15 => Some(Key::F15),
        Keycode::F16 => Some(Key::F16),
        Keycode::F17 => Some(Key::F17),
        Keycode::F18 => Some(Key::F18),
        Keycode::F19 => Some(Key::F19),
        Keycode::F20 => Some(Key::F20),
        Keycode::F21 => Some(Key::F21),
        Keycode::F22 => Some(Key::F22),
        Keycode::F23 => Some(Key::F23),
        Keycode::F24 => Some(Key::F24),
        Keycode::Insert => Some(Key::Insert),
        Keycode::Home => Some(Key::Home),
        Keycode::End => Some(Key::End),
        Keycode::PageUp => Some(Key::PageUp),
        Keycode::PageDown => Some(Key::PageDown),
        Keycode::Up => Some(Key::ArrowUp),
        Keycode::Down => Some(Key::ArrowDown),
        Keycode::Left => Some(Key::ArrowLeft),
        Keycode::Right => Some(Key::ArrowRight),
        Keycode::Backspace => Some(Key::Backspace),
        Keycode::Tab => Some(Key::Tab),
        Keycode::Return => Some(Key::Enter),
        Keycode::Escape => Some(Key::Escape),
        Keycode::Space => Some(Key::Space),
        Keycode::Delete => Some(Key::Delete),
        Keycode::CapsLock => Some(Key::CapsLock),
        Keycode::ScrollLock => Some(Key::ScrollLock),
        Keycode::NumLockClear => Some(Key::NumLock),
        Keycode::PrintScreen => Some(Key::PrintScreen),
        Keycode::Pause => Some(Key::Pause),
        Keycode::Clear => Some(Key::Clear),
        Keycode::Select => Some(Key::Select),
        Keycode::Execute => Some(Key::Execute),
        Keycode::Help => Some(Key::Help),
        Keycode::Application => Some(Key::ContextMenu),
        Keycode::LCtrl => Some(Key::Control),
        Keycode::RCtrl => Some(Key::Control),
        Keycode::LShift => Some(Key::Shift),
        Keycode::RShift => Some(Key::Shift),
        Keycode::LAlt => Some(Key::Alt),
        Keycode::RAlt => Some(Key::Alt),
        Keycode::LGui => Some(Key::Super),
        Keycode::RGui => Some(Key::Super),
        Keycode::Mode => Some(Key::ModeChange),
        Keycode::AudioNext => Some(Key::MediaTrackNext),
        Keycode::AudioPrev => Some(Key::MediaTrackPrevious),
        Keycode::AudioStop => Some(Key::MediaStop),
        Keycode::AudioPlay => Some(Key::MediaPlay),
        Keycode::AudioMute => Some(Key::AudioVolumeMute),
        Keycode::VolumeUp => Some(Key::AudioVolumeUp),
        Keycode::VolumeDown => Some(Key::AudioVolumeDown),
        Keycode::MediaSelect => Some(Key::LaunchMediaPlayer),
        Keycode::Mail => Some(Key::LaunchMail),
        Keycode::Calculator => Some(Key::LaunchApplication2),
        Keycode::Computer => Some(Key::LaunchApplication1),
        Keycode::AcSearch => Some(Key::BrowserSearch),
        Keycode::AcHome => Some(Key::BrowserHome),
        Keycode::AcBack => Some(Key::BrowserBack),
        Keycode::AcForward => Some(Key::BrowserForward),
        Keycode::AcStop => Some(Key::BrowserStop),
        Keycode::AcRefresh => Some(Key::BrowserRefresh),
        Keycode::AcBookmarks => Some(Key::BrowserFavorites),
        _ => None,
    }
}

} // verus!
