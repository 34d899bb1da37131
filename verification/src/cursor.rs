use vstd::prelude::*;

verus! {

/// System-provided cursor icon of the engine's windowing model.
#[derive(Clone, Copy, Debug, PartialEq, Eq, Structural)]
pub enum SystemCursorIcon {
    Default,
    ContextMenu,
    Help,
    Pointer,
    Progress,
    Wait,
    Cell,
    Crosshair,
    Text,
    VerticalText,
    Alias,
    Copy,
    Move,
    NoDrop,
    NotAllowed,
    Grab,
    Grabbing,
    EResize,
    NResize,
    NeResize,
    NwResize,
    SResize,
    SeResize,
    SwResize,
    WResize,
    EwResize,
    NsResize,
    NeswResize,
    NwseResize,
    ColResize,
    RowResize,
    AllScroll,
    ZoomIn,
    ZoomOut,
}

/// Cursor icon component of the engine: either a custom image (whose payload
/// the backend does not support and ignores) or a system icon.
#[derive(Clone, Copy, Debug, PartialEq, Eq, Structural)]
pub enum CursorIcon {
    Custom,
    System(SystemCursorIcon),
}

/// System cursor identifier of the native window system.
#[derive(Clone, Copy, Debug, PartialEq, Eq, Structural)]
pub enum SdlSystemCursor {
    Arrow,
    IBeam,
    Wait,
    Crosshair,
    WaitArrow,
    SizeNWSE,
    SizeNESW,
    SizeWE,
    SizeNS,
    SizeAll,
    No,
    Hand,
}

/// The native system cursor, if any, for an engine cursor icon. Only the
/// arrow, crosshair and text cursors have native equivalents here.
pub open spec fn system_cursor_of(icon: SystemCursorIcon) -> Option<SdlSystemCursor> {
    match icon {
        SystemCursorIcon::Default => Some(SdlSystemCursor::Arrow),
        SystemCursorIcon::Crosshair => Some(SdlSystemCursor::Crosshair),
        SystemCursorIcon::Text => Some(SdlSystemCursor::IBeam),
        _ => None,
    }
}

/// Translates an engine system cursor icon into the native system cursor.
pub fn map_bevy_system_cursor_to_sdl(system_cursor: &SystemCursorIcon) -> (r: Option<
    SdlSystemCursor,
>)
    ensures
        r == system_cursor_of(*system_cursor),
{
    match system_cursor {
        SystemCursorIcon::Default => Some(SdlSystemCursor::Arrow),
        SystemCursorIcon::Crosshair => Some(SdlSystemCursor::Crosshair),
        SystemCursorIcon::Text => Some(SdlSystemCursor::IBeam),
        _ => None,
    }
}

/// The native cursor to install for the window under the pointer, if any.
///
/// A cursor is installed on startup, when no native cursor has been created
/// yet, and afterwards only when the window's cursor icon component changed.
/// Custom cursor images and system icons without a native equivalent install
/// nothing.
pub open spec fn spec_cursor_action(
    active_cursor_set: bool,
    icon_changed: bool,
    icon: CursorIcon,
) -> Option<SdlSystemCursor> {
    if active_cursor_set && !icon_changed {
        None
    } else {
        match icon {
            CursorIcon::Custom => None,
            CursorIcon::System(s) => system_cursor_of(s),
        }
    }
}

/// Decides whether the per-frame cursor pass installs a native cursor, and
/// which one.
pub fn cursor_action(active_cursor_set: bool, icon_changed: bool, icon: &CursorIcon) -> (r: Option<
    SdlSystemCursor,
>)
    ensures
        r == spec_cursor_action(active_cursor_set, icon_changed, *icon),
{
    if active_cursor_set && !icon_changed {
        return None;
    }
    match icon {
        CursorIcon::Custom => None,
        CursorIcon::System(s) => map_bevy_system_cursor_to_sdl(s),
    }
}

} // verus!
