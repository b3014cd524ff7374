//! Instances, and the pool that they share.

use maa_core::config::ControllerConfig;
use maa_core::connect::{maa_connect_controller, ConnectAction, ConnectEvent};
use maa_core::state::{
    maa_create_instance, maa_destroy_instance, next_synthetic_conn_id, update_instance_controller,
    MaaState,
};
use maa_core::table::Table;

fn id(text: &str) -> String {
    text.to_string()
}

fn window(handle: u64) -> ControllerConfig {
    ControllerConfig::Win32 { handle, screencap_method: 1, mouse_method: 1, keyboard_method: 1 }
}

fn new_state() -> MaaState<u32, u32, u32> {
    MaaState::new()
}

/// Serves a connection as the framework would, with a controller of its own.
fn connect(state: &mut MaaState<u32, u32, u32>, name: &str, config: &ControllerConfig, handle: u32) {
    let action = maa_connect_controller(
        state,
        &id(name),
        config,
        ConnectEvent::Posted { controller: handle, pooled: handle, reply: Ok(1) },
    );
    assert!(matches!(action, ConnectAction::Finish { result: Ok(1), .. }));
}

#[test]
fn a_new_state_is_empty() {
    let state = new_state();
    assert_eq!(state.instances.len(), 0);
    assert_eq!(state.controller_pool.len(), 0);
    assert_eq!(state.next_conn_id, -1);
    assert_eq!(state.lib_dir, None);
    assert_eq!(state.resource_dir, None);
    assert!(state.cached_adb_devices.is_empty());
    assert!(state.cached_win32_windows.is_empty());
}

#[test]
fn synthetic_ids_count_down_from_minus_one() {
    let mut counter: i64 = new_state().next_conn_id;
    assert_eq!(next_synthetic_conn_id(&mut counter), -1);
    assert_eq!(next_synthetic_conn_id(&mut counter), -2);
    assert_eq!(next_synthetic_conn_id(&mut counter), -3);
    assert_eq!(counter, -4);
}

#[test]
fn synthetic_ids_wrap_at_the_lowest() {
    let mut counter: i64 = i64::MIN;
    assert_eq!(next_synthetic_conn_id(&mut counter), i64::MIN);
    assert_eq!(counter, i64::MAX);
}

#[test]
fn creating_twice_is_creating_once() {
    let mut state = new_state();
    assert_eq!(maa_create_instance(&mut state, id("a")), Ok(()));
    connect(&mut state, "a", &window(1), 10);
    assert_eq!(maa_create_instance(&mut state, id("a")), Ok(()));
    assert_eq!(state.instances.len(), 1);
    assert_eq!(state.controller(&id("a")), Some(&10));
}

#[test]
fn a_fresh_instance_has_nothing() {
    let mut state = new_state();
    assert_eq!(maa_create_instance(&mut state, id("a")), Ok(()));
    let instance = state.instance(&id("a")).unwrap();
    assert_eq!(instance.controller, None);
    assert_eq!(instance.controller_config, None);
    assert_eq!(instance.resource, None);
    assert_eq!(instance.tasker, None);
    assert!(instance.task_ids.is_empty());
    assert!(!instance.stop_in_progress);
    assert_eq!(instance.stop_started_at, None);
}

#[test]
fn destroying_undoes_creating() {
    let mut state = new_state();
    assert_eq!(maa_create_instance(&mut state, id("a")), Ok(()));
    assert_eq!(maa_destroy_instance(&mut state, id("a")), Ok(()));
    assert_eq!(state.instances.len(), 0);
    assert_eq!(maa_destroy_instance(&mut state, id("a")), Ok(()));
    assert_eq!(maa_destroy_instance(&mut state, id("never")), Ok(()));
}

#[test]
fn destroying_leaves_the_others() {
    let mut state = new_state();
    for name in ["a", "b", "c"] {
        assert_eq!(maa_create_instance(&mut state, id(name)), Ok(()));
    }
    connect(&mut state, "c", &window(3), 30);
    assert_eq!(maa_destroy_instance(&mut state, id("b")), Ok(()));
    assert!(state.instance(&id("a")).is_some());
    assert!(state.instance(&id("b")).is_none());
    assert_eq!(state.controller(&id("c")), Some(&30));
}

#[test]
fn updating_sets_the_controller_and_drops_the_tasker() {
    let mut state = new_state();
    assert_eq!(maa_create_instance(&mut state, id("a")), Ok(()));
    assert_eq!(update_instance_controller(&mut state, &id("a"), 7, window(1)), Ok(()));
    let instance = state.instance(&id("a")).unwrap();
    assert_eq!(instance.controller, Some(7));
    assert_eq!(instance.controller_config, Some(window(1)));
    assert_eq!(instance.tasker, None);
}

#[test]
fn updating_an_unknown_instance_fails() {
    let mut state = new_state();
    assert_eq!(
        update_instance_controller(&mut state, &id("a"), 7, window(1)),
        Err(id("Instance not found"))
    );
}

#[test]
fn an_entry_goes_with_its_last_user() {
    let mut state = new_state();
    assert_eq!(maa_create_instance(&mut state, id("a")), Ok(()));
    connect(&mut state, "a", &window(1), 10);
    assert_eq!(state.pooled_controller(&window(1)), Some(&10));
    connect(&mut state, "a", &window(2), 20);
    assert_eq!(state.pooled_controller(&window(1)), None);
    assert_eq!(state.pooled_controller(&window(2)), Some(&20));
    assert_eq!(maa_destroy_instance(&mut state, id("a")), Ok(()));
    assert_eq!(state.controller_pool.len(), 0);
}

#[test]
fn an_entry_stays_while_another_uses_it() {
    let mut state = new_state();
    for name in ["a", "b"] {
        assert_eq!(maa_create_instance(&mut state, id(name)), Ok(()));
        connect(&mut state, name, &window(1), 10);
    }
    assert!(state.config_in_use(&window(1)));
    connect(&mut state, "a", &window(2), 20);
    assert_eq!(state.pooled_controller(&window(1)), Some(&10));
    assert_eq!(maa_destroy_instance(&mut state, id("b")), Ok(()));
    assert!(!state.config_in_use(&window(1)));
    assert_eq!(state.pooled_controller(&window(1)), None);
    assert_eq!(state.pooled_controller(&window(2)), Some(&20));
}

#[test]
fn connecting_again_keeps_the_entry() {
    let mut state = new_state();
    assert_eq!(maa_create_instance(&mut state, id("a")), Ok(()));
    connect(&mut state, "a", &window(1), 10);
    connect(&mut state, "a", &window(1), 11);
    assert_eq!(state.pooled_controller(&window(1)), Some(&11));
    assert_eq!(state.controller_pool.len(), 1);
}

#[test]
fn a_controller_comes_with_its_configuration() {
    let mut state = new_state();
    assert_eq!(maa_create_instance(&mut state, id("a")), Ok(()));
    assert_eq!(maa_create_instance(&mut state, id("b")), Ok(()));
    connect(&mut state, "a", &window(1), 10);
    for name in ["a", "b"] {
        let instance = state.instance(&id(name)).unwrap();
        assert_eq!(instance.controller.is_some(), instance.controller_config.is_some());
    }
}

#[test]
fn configurations_differ_in_every_field() {
    let adb = |config: &str| ControllerConfig::Adb {
        adb_path: id("adb"),
        address: id("127.0.0.1:5555"),
        screencap_methods: id("1"),
        input_methods: id("1"),
        config: id(config),
    };
    let pad = |screencap_method: Option<u64>| ControllerConfig::Gamepad {
        handle: 1,
        gamepad_type: None,
        screencap_method,
    };
    let cover = |uuid: Option<String>| ControllerConfig::PlayCover { address: id("x"), uuid };
    let mut table: Table<ControllerConfig, u32> = Table::new();
    table.insert(adb("{}"), 1);
    table.insert(adb("{ }"), 2);
    table.insert(window(1), 3);
    table.insert(pad(None), 4);
    table.insert(pad(Some(0)), 5);
    table.insert(cover(None), 6);
    table.insert(cover(Some(id(""))), 7);
    table.insert(adb("{}"), 8);
    assert_eq!(table.len(), 7);
    assert_eq!(table.get(&adb("{}")), Some(&8));
    assert_eq!(table.get(&adb("{ }")), Some(&2));
    assert_eq!(table.get(&pad(Some(0))), Some(&5));
    assert_eq!(table.get(&cover(Some(id("")))), Some(&7));
    assert_eq!(table.remove(&pad(None)), Some(4));
    assert!(!table.contains_key(&pad(None)));
    assert_eq!(table.remove(&pad(None)), None);
    assert_eq!(table.get(&window(2)), None);
    assert_eq!(table.len(), 6);
}
