use bevy_window_sdl2_backend::windows::SdlWindows;

#[test]
fn empty_table_finds_nothing() {
    let map = SdlWindows::new();
    assert_eq!(map.get_window_entity(1), None);
    assert_eq!(map.get_window(7), None);
    assert!(!map.contains_entity(7));
}

#[test]
fn insert_then_look_up_both_directions() {
    let mut map = SdlWindows::new();
    map.insert(42, 1);
    assert_eq!(map.get_window_entity(1), Some(42));
    assert_eq!(map.get_window(42), Some(1));
    assert!(map.contains_entity(42));
    assert!(!map.contains_entity(41));
    assert_eq!(map.get_window_entity(2), None);
}

#[test]
fn several_windows_stay_distinct() {
    let mut map = SdlWindows::new();
    map.insert(10, 1);
    map.insert(20, 2);
    map.insert(30, 3);
    assert_eq!(map.get_window_entity(1), Some(10));
    assert_eq!(map.get_window_entity(2), Some(20));
    assert_eq!(map.get_window_entity(3), Some(30));
    assert_eq!(map.get_window(10), Some(1));
    assert_eq!(map.get_window(20), Some(2));
    assert_eq!(map.get_window(30), Some(3));
    assert_eq!(map.get_window_entity(4), None);
    assert_eq!(map.get_window(40), None);
}

#[test]
fn window_id_zero_is_an_ordinary_key() {
    let mut map = SdlWindows::new();
    map.insert(99, 0);
    assert_eq!(map.get_window_entity(0), Some(99));
}
