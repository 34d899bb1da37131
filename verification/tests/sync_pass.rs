use bevy_window_sdl2_backend::sync::{
    SyncAction, plan_window_creation, sync_window_actions,
};
use bevy_window_sdl2_backend::window::{CursorGrabMode, WindowMode, WindowState};

const ONE: u32 = 1065353216; // 1.0f32 bit pattern
const TWO: u32 = 1073741824; // 2.0f32 bit pattern

fn state() -> WindowState {
    WindowState {
        title: String::from("demo"),
        visible: true,
        resizable: false,
        decorations: true,
        transparent: false,
        focused: false,
        mode: WindowMode::Windowed,
        physical_width: 800,
        physical_height: 600,
        scale_factor_override_bits: None,
        base_scale_factor_bits: ONE,
        cursor_position: None,
        maximized: false,
        minimized: false,
    }
}

#[test]
fn unchanged_window_needs_no_calls() {
    let w = state();
    let c = state();
    assert!(sync_window_actions(&w, &c, false).is_empty());
    assert!(sync_window_actions(&w, &c, true).is_empty());
}

#[test]
fn title_change_sets_the_title() {
    let mut w = state();
    w.title = String::from("renamed");
    let actions = sync_window_actions(&w, &state(), false);
    assert_eq!(actions, vec![SyncAction::SetTitle(String::from("renamed"))]);
}

#[test]
fn visibility_changes_show_or_hide() {
    let mut w = state();
    w.visible = false;
    assert_eq!(
        sync_window_actions(&w, &state(), false),
        vec![SyncAction::Hide]
    );
    let mut c = state();
    c.visible = false;
    assert_eq!(
        sync_window_actions(&state(), &c, false),
        vec![SyncAction::Show]
    );
}

#[test]
fn resizable_change_is_propagated() {
    let mut w = state();
    w.resizable = true;
    assert_eq!(
        sync_window_actions(&w, &state(), false),
        vec![SyncAction::SetResizable(true)]
    );
}

#[test]
fn size_change_with_same_scale_sets_the_size() {
    let mut w = state();
    w.physical_width = 1024;
    w.physical_height = 768;
    assert_eq!(
        sync_window_actions(&w, &state(), false),
        vec![SyncAction::SetSize(1024, 768)]
    );
}

#[test]
fn scale_change_asks_for_a_rescale() {
    let mut w = state();
    w.scale_factor_override_bits = Some(TWO);
    let actions = sync_window_actions(&w, &state(), false);
    assert_eq!(
        actions,
        vec![SyncAction::RescaleSize {
            physical_width: 800,
            physical_height: 600,
            cached_physical_width: 800,
            cached_physical_height: 600,
            cached_override_bits: None,
            override_bits: Some(TWO),
            base_bits: ONE,
        }]
    );
}

#[test]
fn scale_change_on_a_maximized_window_is_not_rescaled() {
    let mut w = state();
    w.scale_factor_override_bits = Some(TWO);
    // Same physical size: nothing to set while maximized.
    assert!(sync_window_actions(&w, &state(), true).is_empty());
    // Different physical size: a plain size call even while maximized.
    w.physical_width = 1600;
    assert_eq!(
        sync_window_actions(&w, &state(), true),
        vec![SyncAction::SetSize(1600, 600)]
    );
}

#[test]
fn base_scale_change_counts_as_a_resolution_change() {
    let mut w = state();
    w.base_scale_factor_bits = TWO;
    let actions = sync_window_actions(&w, &state(), false);
    assert_eq!(actions.len(), 1);
    assert!(matches!(actions[0], SyncAction::RescaleSize { .. }));
}

#[test]
fn actions_come_in_a_fixed_order() {
    let mut w = state();
    w.title = String::from("renamed");
    w.visible = false;
    w.resizable = true;
    w.physical_width = 4;
    let actions = sync_window_actions(&w, &state(), false);
    assert_eq!(
        actions,
        vec![
            SyncAction::SetTitle(String::from("renamed")),
            SyncAction::Hide,
            SyncAction::SetResizable(true),
            SyncAction::SetSize(4, 600),
        ]
    );
}

#[test]
fn creation_plan_mirrors_the_window() {
    let w = state();
    let p = plan_window_creation(&w, CursorGrabMode::Free);
    assert_eq!(p.title, String::from("demo"));
    assert_eq!((p.width, p.height), (1240, 720));
    assert!(!p.resizable);
    assert!(!p.hidden);
    assert!(!p.borderless);
    assert!(!p.fullscreen_desktop);
    assert!(!p.fullscreen);
    assert!(!p.set_opacity_zero);
    assert!(!p.mouse_grab);
}

#[test]
fn creation_plan_for_a_borderless_fullscreen_window() {
    let mut w = state();
    w.mode = WindowMode::BorderlessFullscreen;
    w.visible = false;
    w.transparent = true;
    let p = plan_window_creation(&w, CursorGrabMode::Locked);
    assert!(p.borderless);
    assert!(p.fullscreen_desktop);
    assert!(!p.fullscreen);
    assert!(p.hidden);
    assert!(p.set_opacity_zero);
    assert!(p.mouse_grab);
}

#[test]
fn creation_plan_for_undecorated_and_fullscreen_windows() {
    let mut w = state();
    w.decorations = false;
    let p = plan_window_creation(&w, CursorGrabMode::Confined);
    assert!(p.borderless);
    assert!(!p.fullscreen_desktop);
    assert!(p.mouse_grab);

    let mut w = state();
    w.mode = WindowMode::Fullscreen;
    let p = plan_window_creation(&w, CursorGrabMode::Free);
    assert!(p.fullscreen);
    assert!(!p.borderless);
}
