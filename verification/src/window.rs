use vstd::prelude::*;

verus! {

/// Presentation mode of an engine window.
#[derive(Clone, Copy, Debug, PartialEq, Eq, Structural)]
pub enum WindowMode {
    Windowed,
    BorderlessFullscreen,
    Fullscreen,
}

/// Cursor grab mode of an engine window.
#[derive(Clone, Copy, Debug, PartialEq, Eq, Structural)]
pub enum CursorGrabMode {
    Free,
    Confined,
    Locked,
}

/// The part of the engine's window component that this backend reads and
/// writes, held as plain values.
///
/// Sizes and cursor positions are physical pixels. The two scale-factor
/// fields carry the IEEE-754 bit pattern of the engine's single-precision
/// scale factors; the backend never computes with them, it only compares
/// them for equality, so the bit pattern is all it needs.
#[derive(Clone, Debug, PartialEq)]
pub struct WindowState {
    pub title: String,
    pub visible: bool,
    pub resizable: bool,
    pub decorations: bool,
    pub transparent: bool,
    pub focused: bool,
    pub mode: WindowMode,
    pub physical_width: u32,
    pub physical_height: u32,
    pub scale_factor_override_bits: Option<u32>,
    pub base_scale_factor_bits: u32,
    pub cursor_position: Option<(i32, i32)>,
    pub maximized: bool,
    pub minimized: bool,
}

impl WindowState {
    /// The bit pattern of the effective scale factor: the override where one
    /// is set, the base factor that the window system suggested otherwise.
    pub open spec fn spec_scale_factor_bits(self) -> u32 {
        match self.scale_factor_override_bits {
            Some(b) => b,
            None => self.base_scale_factor_bits,
        }
    }

    /// The effective scale factor as the engine computes it.
    pub fn scale_factor_bits(&self) -> (r: u32)
        ensures
            r == self.spec_scale_factor_bits(),
    {
        match self.scale_factor_override_bits {
            Some(b) => b,
            None => self.base_scale_factor_bits,
        }
    }

    /// Whether the two states agree on the engine's window resolution: the
    /// physical size together with both scale-factor fields.
    pub open spec fn spec_same_resolution(self, other: WindowState) -> bool {
        &&& self.physical_width == other.physical_width
        &&& self.physical_height == other.physical_height
        &&& self.scale_factor_override_bits == other.scale_factor_override_bits
        &&& self.base_scale_factor_bits == other.base_scale_factor_bits
    }

    /// Compares the resolution parts of two window states.
    pub fn same_resolution(&self, other: &WindowState) -> (r: bool)
        ensures
            r == self.spec_same_resolution(*other),
    {
        self.physical_width == other.physical_width && self.physical_height
            == other.physical_height && match (
            self.scale_factor_override_bits,
            other.scale_factor_override_bits,
        ) {
            (Some(a), Some(b)) => a == b,
            (None, None) => true,
            _ => false,
        } && self.base_scale_factor_bits == other.base_scale_factor_bits
    }
}

/// Lifecycle or geometry notification of a native window, as the window
/// system reports it. Sizes already carry the window system's values
/// reinterpreted as unsigned pixels.
#[derive(Clone, Copy, Debug, PartialEq, Eq, Structural)]
pub enum SdlWindowEvent {
    Empty,
    Shown,
    Hidden,
    Exposed,
    Moved(i32, i32),
    Resized(u32, u32),
    SizeChanged(u32, u32),
    Minimized,
    Maximized,
    Restored,
    Enter,
    Leave,
    FocusGained,
    FocusLost,
    Close,
    TakeFocus,
    HitTest,
    ICCProfChanged,
    DisplayChanged(i32),
}

/// The window state after a native window event has been applied: resize
/// events record the new physical size, visibility and focus notifications
/// set the matching flags, and leaving the window clears the tracked cursor
/// position. Every other event leaves the state unchanged.
pub open spec fn spec_window_after(w: WindowState, ev: SdlWindowEvent) -> WindowState {
    match ev {
        SdlWindowEvent::Resized(width, height) => WindowState {
            physical_width: width,
            physical_height: height,
            ..w
        },
        SdlWindowEvent::SizeChanged(width, height) => WindowState {
            physical_width: width,
            physical_height: height,
            ..w
        },
        SdlWindowEvent::Shown => WindowState { visible: true, ..w },
        SdlWindowEvent::Hidden => WindowState { visible: false, ..w },
        SdlWindowEvent::Maximized => WindowState { maximized: true, ..w },
        SdlWindowEvent::Minimized => WindowState { minimized: true, ..w },
        SdlWindowEvent::Leave => WindowState { cursor_position: None, ..w },
        SdlWindowEvent::FocusGained => WindowState { focused: true, ..w },
        SdlWindowEvent::FocusLost => WindowState { focused: false, ..w },
        _ => w,
    }
}

/// A native window event never touches the fields that only the engine
/// writes: the title, the resizability, decoration and transparency flags,
/// the presentation mode, and both scale factors.
pub proof fn lemma_window_event_preserves_engine_fields(w: WindowState, ev: SdlWindowEvent)
    ensures
        spec_window_after(w, ev).title == w.title,
        spec_window_after(w, ev).resizable == w.resizable,
        spec_window_after(w, ev).decorations == w.decorations,
        spec_window_after(w, ev).transparent == w.transparent,
        spec_window_after(w, ev).mode == w.mode,
        spec_window_after(w, ev).scale_factor_override_bits == w.scale_factor_override_bits,
        spec_window_after(w, ev).base_scale_factor_bits == w.base_scale_factor_bits,
{
}

} // verus!
