use vstd::prelude::*;

use crate::window::{CursorGrabMode, WindowState};

verus! {

/// One native call that the synchronization pass asks for, after comparing a
/// live window state with its cached snapshot.
///
/// `RescaleSize` stands for the size adjustment that follows a scale-factor
/// change: the new physical size is the old logical size re-scaled, a
/// single-precision computation that the caller performs with the carried
/// inputs, followed by a size call only if the result differs from the
/// cached physical size.
#[derive(Clone, Debug, PartialEq)]
pub enum SyncAction {
    SetTitle(String),
    Show,
    Hide,
    SetResizable(bool),
    SetSize(u32, u32),
    RescaleSize {
        physical_width: u32,
        physical_height: u32,
        cached_physical_width: u32,
        cached_physical_height: u32,
        cached_override_bits: Option<u32>,
        override_bits: Option<u32>,
        base_bits: u32,
    },
}

/// The title call: issued exactly when the titles differ, with the live
/// title.
pub open spec fn spec_title_action(window: WindowState, cache: WindowState) -> Seq<SyncAction> {
    if window.title@ != cache.title@ {
        seq![SyncAction::SetTitle(window.title)]
    } else {
        seq![]
    }
}

/// The visibility call: issued exactly when the visibility flags differ.
pub open spec fn spec_visibility_action(window: WindowState, cache: WindowState) -> Seq<
    SyncAction,
> {
    if window.visible != cache.visible {
        if window.visible {
            seq![SyncAction::Show]
        } else {
            seq![SyncAction::Hide]
        }
    } else {
        seq![]
    }
}

/// The resizability call: issued exactly when the flags differ.
pub open spec fn spec_resizable_action(window: WindowState, cache: WindowState) -> Seq<
    SyncAction,
> {
    if window.resizable != cache.resizable {
        seq![SyncAction::SetResizable(window.resizable)]
    } else {
        seq![]
    }
}

/// The size call: nothing when the resolutions agree; a re-scaled size when
/// the effective scale factor changed and the native window is not
/// maximized; otherwise a plain size call exactly when the physical sizes
/// differ.
pub open spec fn spec_resolution_action(
    window: WindowState,
    cache: WindowState,
    maximized: bool,
) -> Seq<SyncAction> {
    if window.spec_same_resolution(cache) {
        seq![]
    } else if window.spec_scale_factor_bits() != cache.spec_scale_factor_bits() && !maximized {
        seq![
            (SyncAction::RescaleSize {
                physical_width: window.physical_width,
                physical_height: window.physical_height,
                cached_physical_width: cache.physical_width,
                cached_physical_height: cache.physical_height,
                cached_override_bits: cache.scale_factor_override_bits,
                override_bits: window.scale_factor_override_bits,
                base_bits: window.base_scale_factor_bits,
            }),
        ]
    } else if window.physical_width != cache.physical_width || window.physical_height
        != cache.physical_height {
        seq![SyncAction::SetSize(window.physical_width, window.physical_height)]
    } else {
        seq![]
    }
}

/// All native calls for one window, in the order the pass issues them.
pub open spec fn spec_sync_actions(window: WindowState, cache: WindowState, maximized: bool) -> Seq<
    SyncAction,
> {
    spec_title_action(window, cache) + spec_visibility_action(window, cache)
        + spec_resizable_action(window, cache) + spec_resolution_action(window, cache, maximized)
}

/// A window whose live state agrees with its cached snapshot gets no native
/// call from the synchronization pass.
pub proof fn lemma_sync_unchanged(window: WindowState, cache: WindowState, maximized: bool)
    requires
        window.title@ == cache.title@,
        window.visible == cache.visible,
        window.resizable == cache.resizable,
        window.spec_same_resolution(cache),
    ensures
        spec_sync_actions(window, cache, maximized).len() == 0,
{
}

/// Compares a live window state with its cached snapshot and returns the
/// native calls that bring the native window up to date. `maximized` is
/// whether the native window is currently maximized; a maximized window's
/// size is not re-scaled after a scale-factor change.
pub fn sync_window_actions(window: &WindowState, cache: &WindowState, maximized: bool) -> (r: Vec<
    SyncAction,
>)
    ensures
        r@ == spec_sync_actions(*window, *cache, maximized),
{
    let mut r: Vec<SyncAction> = Vec::new();
    if !(window.title == cache.title) {
        r.push(SyncAction::SetTitle(window.title.clone()));
    }
    if window.visible != cache.visible {
        if window.visible {
            r.push(SyncAction::Show);
        } else {
            r.push(SyncAction::Hide);
        }
    }
    if window.resizable != cache.resizable {
        r.push(SyncAction::SetResizable(window.resizable));
    }
    if !window.same_resolution(cache) {
        if window.scale_factor_bits() != cache.scale_factor_bits() && !maximized {
            r.push(
                SyncAction::RescaleSize {
                    physical_width: window.physical_width,
                    physical_height: window.physical_height,
                    cached_physical_width: cache.physical_width,
                    cached_physical_height: cache.physical_height,
                    cached_override_bits: cache.scale_factor_override_bits,
                    override_bits: window.scale_factor_override_bits,
                    base_bits: window.base_scale_factor_bits,
                },
            );
        } else if window.physical_width != cache.physical_width || window.physical_height
            != cache.physical_height {
            r.push(SyncAction::SetSize(window.physical_width, window.physical_height));
        }
    }
    proof {
        assert(r@ =~= spec_sync_actions(*window, *cache, maximized));
    }
    r
}

/// How a native window is built for an engine window that has none yet: the
/// builder flags mirror the engine window's state, at the backend's fixed
/// initial size.
#[derive(Clone, Debug, PartialEq)]
pub struct WindowCreationPlan {
    pub title: String,
    pub width: u32,
    pub height: u32,
    pub resizable: bool,
    pub hidden: bool,
    pub borderless: bool,
    pub fullscreen_desktop: bool,
    pub fullscreen: bool,
    pub set_opacity_zero: bool,
    pub mouse_grab: bool,
}

/// The creation plan for an engine window: borderless when decorations are
/// off or the mode is borderless fullscreen, hidden when not visible,
/// transparent windows start fully transparent, and any grab mode but the
/// free one grabs the mouse.
pub open spec fn spec_window_creation_plan(
    window: WindowState,
    grab_mode: CursorGrabMode,
) -> WindowCreationPlan {
    WindowCreationPlan {
        title: window.title,
        width: 1240,
        height: 720,
        resizable: window.resizable,
        hidden: !window.visible,
        borderless: !window.decorations || window.mode is BorderlessFullscreen,
        fullscreen_desktop: window.mode is BorderlessFullscreen,
        fullscreen: window.mode is Fullscreen,
        set_opacity_zero: window.transparent,
        mouse_grab: !(grab_mode is Free),
    }
}

/// Decides how the native window for an engine window is built.
pub fn plan_window_creation(window: &WindowState, grab_mode: CursorGrabMode) -> (p:
    WindowCreationPlan)
    ensures
        p == spec_window_creation_plan(*window, grab_mode),
{
    let borderless = !window.decorations || matches!(window.mode, crate::window::WindowMode::BorderlessFullscreen);
    WindowCreationPlan {
        title: window.title.clone(),
        width: 1240,
        height: 720,
        resizable: window.resizable,
        hidden: !window.visible,
        borderless,
        fullscreen_desktop: matches!(window.mode, crate::window::WindowMode::BorderlessFullscreen),
        fullscreen: matches!(window.mode, crate::window::WindowMode::Fullscreen),
        set_opacity_zero: window.transparent,
        mouse_grab: !matches!(grab_mode, CursorGrabMode::Free),
    }
}

} // verus!
