use vstd::prelude::*;

verus! {

/// Mouse button identifier of the native window system.
#[derive(Clone, Copy, Debug, PartialEq, Eq, Structural)]
pub enum SdlMouseButton {
    Unknown,
    Left,
    Middle,
    Right,
    X1,
    X2,
}

/// Mouse button identifier of the engine's input model.
#[derive(Clone, Copy, Debug, PartialEq, Eq, Structural)]
pub enum MouseButton {
    Left,
    Right,
    Middle,
    Back,
    Forward,
}

/// The engine button, if any, for a native mouse button. The two extra
/// buttons become the navigation buttons; an unknown button translates to
/// `None`.
pub open spec fn mouse_button_of(button: SdlMouseButton) -> Option<MouseButton> {
    match button {
        SdlMouseButton::Left => Some(MouseButton::Left),
        SdlMouseButton::Middle => Some(MouseButton::Middle),
        SdlMouseButton::Right => Some(MouseButton::Right),
        SdlMouseButton::X1 => Some(MouseButton::Back),
        SdlMouseButton::X2 => Some(MouseButton::Forward),
        SdlMouseButton::Unknown => None,
    }
}

/// Translates a native mouse button into the engine's button.
pub fn convert_sdl_mouse_btn(button: SdlMouseButton) -> (r: Option<MouseButton>)
    ensures
        r == mouse_button_of(button),
{
    match button {
        SdlMouseButton::Left => Some(MouseButton::Left),
        SdlMouseButton::Middle => Some(MouseButton::Middle),
        SdlMouseButton::Right => Some(MouseButton::Right),
        SdlMouseButton::X1 => Some(MouseButton::Back),
        SdlMouseButton::X2 => Some(MouseButton::Forward),
        SdlMouseButton::Unknown => None,
    }
}

} // verus!
