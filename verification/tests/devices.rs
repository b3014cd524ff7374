//! Searches for devices and windows.

use maa_core::devices::{
    filter_windows, maa_find_adb_devices, maa_find_win32_windows, AdbDevice, Win32Window,
};
use maa_core::state::MaaState;

fn text(t: &str) -> String {
    t.to_string()
}

fn window(handle: u64, class_name: &str, window_name: &str) -> Win32Window {
    Win32Window { handle, class_name: text(class_name), window_name: text(window_name) }
}

fn some_windows() -> Vec<Win32Window> {
    vec![
        window(1, "UnityWndClass", "Game One"),
        window(2, "Chrome_WidgetWin_1", "Game Two"),
        window(3, "UnityWndClass", "Editor"),
        window(4, "", ""),
    ]
}

fn kept(class_regex: Option<&str>, window_regex: Option<&str>) -> Vec<u64> {
    filter_windows(&some_windows(), &class_regex.map(text), &window_regex.map(text))
        .iter()
        .map(|w| w.handle)
        .collect()
}

#[test]
fn devices_are_kept_and_handed_out() {
    let mut state: MaaState<u32, u32, u32> = MaaState::new();
    let device = || AdbDevice {
        name: text("emulator"),
        adb_path: text("/usr/bin/adb"),
        address: text("127.0.0.1:5555"),
        screencap_methods: 3,
        input_methods: 5,
        config: text("{}"),
    };
    assert_eq!(maa_find_adb_devices(&mut state, Ok(vec![device()])), Ok(vec![device()]));
    assert_eq!(state.cached_adb_devices, vec![device()]);
    assert_eq!(maa_find_adb_devices(&mut state, Err(text("no adb"))), Err(text("no adb")));
    assert_eq!(state.cached_adb_devices, vec![device()]);
    assert_eq!(maa_find_adb_devices(&mut state, Ok(vec![])), Ok(vec![]));
    assert!(state.cached_adb_devices.is_empty());
}

#[test]
fn without_filters_every_window_stays() {
    assert_eq!(kept(None, None), vec![1, 2, 3, 4]);
}

#[test]
fn a_filter_on_the_class() {
    assert_eq!(kept(Some("Unity"), None), vec![1, 3]);
    assert_eq!(kept(Some("unity"), None), Vec::<u64>::new());
}

#[test]
fn a_filter_on_the_name() {
    assert_eq!(kept(None, Some("Game")), vec![1, 2]);
    assert_eq!(kept(None, Some("^Game T.o$")), vec![2]);
}

#[test]
fn both_filters_have_to_pass() {
    assert_eq!(kept(Some("Unity"), Some("Game")), vec![1]);
    assert_eq!(kept(Some(""), Some("")), vec![1, 2, 3, 4]);
    assert_eq!(kept(Some("^$"), None), vec![4]);
}

#[test]
fn a_filter_that_does_not_compile_lets_all_pass() {
    assert_eq!(kept(Some("("), None), vec![1, 2, 3, 4]);
    assert_eq!(kept(Some("("), Some("Editor")), vec![3]);
}

#[test]
fn filtering_again_changes_nothing() {
    let class = Some(text("Unity"));
    let once = filter_windows(&some_windows(), &class, &None);
    assert_eq!(filter_windows(&once, &class, &None), once);
}

#[test]
fn filters_work_one_after_the_other() {
    let class = Some(text("Unity"));
    let name = Some(text("Game"));
    let by_class = filter_windows(&some_windows(), &class, &None);
    assert_eq!(
        filter_windows(&some_windows(), &class, &name),
        filter_windows(&by_class, &None, &name)
    );
}

#[test]
fn the_windows_that_passed_are_kept_and_handed_out() {
    let mut state: MaaState<u32, u32, u32> = MaaState::new();
    let wanted = vec![window(3, "UnityWndClass", "Editor")];
    let found =
        maa_find_win32_windows(&mut state, Ok(some_windows()), None, Some(text("Editor")));
    assert_eq!(found, Ok(wanted));
    assert_eq!(state.cached_win32_windows, vec![window(3, "UnityWndClass", "Editor")]);
    let failed = maa_find_win32_windows(&mut state, Err(text("no desktop")), None, None);
    assert_eq!(failed, Err(text("no desktop")));
    assert_eq!(state.cached_win32_windows.len(), 1);
}
