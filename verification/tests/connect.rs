//! Plans for controllers, and the steps of a connection.

use maa_core::config::ControllerConfig;
use maa_core::connect::{
    agent_path, maa_connect_controller, plan_controller, reuse_notices, ConnectAction,
    ConnectEvent, ControllerPlan, GamepadKind,
};
use maa_core::state::{maa_create_instance, MaaState};
use maa_core::text::{contains, decimal_text, signed_decimal_text, text_is, trim_leading};

fn text(t: &str) -> String {
    t.to_string()
}

fn adb(screencap: &str, input: &str) -> ControllerConfig {
    ControllerConfig::Adb {
        adb_path: text("/usr/bin/adb"),
        address: text("127.0.0.1:16384"),
        screencap_methods: text(screencap),
        input_methods: text(input),
        config: text("{\"extras\":{}}"),
    }
}

fn cover() -> ControllerConfig {
    ControllerConfig::PlayCover { address: text("127.0.0.1:1717"), uuid: Some(text("maa")) }
}

fn pad(gamepad_type: Option<&str>, screencap_method: Option<u64>) -> ControllerConfig {
    ControllerConfig::Gamepad { handle: 9, gamepad_type: gamepad_type.map(text), screencap_method }
}

fn state_with(names: &[&str]) -> MaaState<u32, u32, u32> {
    let mut state = MaaState::new();
    for name in names {
        assert_eq!(maa_create_instance(&mut state, text(name)), Ok(()));
    }
    state
}

fn step(
    state: &mut MaaState<u32, u32, u32>,
    name: &str,
    config: &ControllerConfig,
    event: ConnectEvent<u32>,
) -> ConnectAction<u32> {
    maa_connect_controller(state, &text(name), config, event)
}

fn failure(action: ConnectAction<u32>) -> String {
    match action {
        ConnectAction::Finish { result: Err(e), events } => {
            assert!(events.is_empty());
            e
        }
        _ => panic!("the connection went on"),
    }
}

#[test]
fn adb_settings_are_numbers() {
    assert_eq!(
        plan_controller(&adb("18446744073709551615", "+7")),
        Ok(ControllerPlan::Adb {
            adb_path: text("/usr/bin/adb"),
            address: text("127.0.0.1:16384"),
            screencap_bits: u64::MAX,
            input_bits: 7,
            config: text("{\"extras\":{}}"),
        })
    );
}

#[test]
fn every_adb_bit_is_kept() {
    match plan_controller(&adb("9223372036854775808", "4096")) {
        Ok(ControllerPlan::Adb { screencap_bits, input_bits, .. }) => {
            assert_eq!(screencap_bits, 1 << 63);
            assert_eq!(input_bits, 4096);
        }
        _ => panic!("no plan"),
    }
}

#[test]
fn a_screencap_setting_that_is_no_number_is_named() {
    assert_eq!(
        plan_controller(&adb("all", "x")),
        Err(text("Invalid screencap_methods 'all': invalid digit found in string"))
    );
    assert_eq!(
        plan_controller(&adb("", "1")),
        Err(text("Invalid screencap_methods '': cannot parse integer from empty string"))
    );
}

#[test]
fn an_input_setting_that_is_no_number_is_named() {
    assert_eq!(
        plan_controller(&adb("1", "-1")),
        Err(text("Invalid input_methods '-1': invalid digit found in string"))
    );
    assert_eq!(
        plan_controller(&adb("1", "18446744073709551616")),
        Err(text(
            "Invalid input_methods '18446744073709551616': number too large to fit in target type"
        ))
    );
}

#[test]
fn unknown_win32_input_bits_are_dropped() {
    let config = ControllerConfig::Win32 {
        handle: 42,
        screencap_method: u64::MAX,
        mouse_method: u64::MAX,
        keyboard_method: 0x1802,
    };
    assert_eq!(
        plan_controller(&config),
        Ok(ControllerPlan::Win32 {
            handle: 42,
            screencap_bits: u64::MAX,
            mouse_bits: 0x7ff,
            keyboard_bits: 2,
        })
    );
}

#[test]
fn a_missing_uuid_is_empty() {
    let config = ControllerConfig::PlayCover { address: text("a"), uuid: None };
    assert_eq!(
        plan_controller(&config),
        Ok(ControllerPlan::PlayCover { address: text("a"), uuid: text("") })
    );
    assert_eq!(
        plan_controller(&cover()),
        Ok(ControllerPlan::PlayCover { address: text("127.0.0.1:1717"), uuid: text("maa") })
    );
}

#[test]
fn a_gamepad_is_an_xbox_pad_unless_it_says_otherwise() {
    let kind = |name: Option<&str>| match plan_controller(&pad(name, Some(3))) {
        Ok(ControllerPlan::Gamepad { handle: 9, kind, screencap_bits: 3 }) => kind,
        _ => panic!("no plan"),
    };
    assert_eq!(kind(Some("DualShock4")), GamepadKind::DualShock4);
    assert_eq!(kind(Some("DS4")), GamepadKind::DualShock4);
    assert_eq!(kind(Some("Xbox360")), GamepadKind::Xbox360);
    assert_eq!(kind(Some("ds4")), GamepadKind::Xbox360);
    assert_eq!(kind(None), GamepadKind::Xbox360);
}

#[test]
fn a_gamepad_duplicates_the_desktop_by_default() {
    assert_eq!(
        plan_controller(&pad(None, None)),
        Ok(ControllerPlan::Gamepad { handle: 9, kind: GamepadKind::Xbox360, screencap_bits: 4 })
    );
}

#[test]
fn the_agent_lies_with_the_framework() {
    assert_eq!(agent_path(Some(text("maafw"))).replace('\\', "/"), "maafw/MaaAgentBinary");
    assert_eq!(agent_path(None), "./MaaAgentBinary");
}

#[test]
fn notices_of_a_reuse_carry_the_id() {
    let notices = reuse_notices(-12);
    assert_eq!(notices.len(), 2);
    assert_eq!(notices[0].message, "Controller.Action.Starting");
    assert_eq!(notices[1].message, "Controller.Action.Succeeded");
    for notice in &notices {
        assert_eq!(notice.details, "{\"ctrl_id\":-12,\"action\":\"Connect\"}");
    }
}

#[test]
fn a_first_connection_builds_and_pools() {
    let mut state = state_with(&["a"]);
    let config = cover();
    let action = step(&mut state, "a", &config, ConnectEvent::Begin);
    match action {
        ConnectAction::Build(plan) => assert_eq!(Ok(plan), plan_controller(&config)),
        _ => panic!("nothing to reuse"),
    }
    let action = step(&mut state, "a", &config, ConnectEvent::Built(Ok(5)));
    assert!(matches!(action, ConnectAction::AddSink(5)));
    let action = step(&mut state, "a", &config, ConnectEvent::SinkAdded(5, Ok(())));
    assert!(matches!(action, ConnectAction::SetShortSide(5, 720)));
    let refused = ConnectEvent::ShortSideSet(5, Err(text("no")));
    let action = step(&mut state, "a", &config, refused);
    assert!(matches!(action, ConnectAction::PostConnection(5)));
    let posted = ConnectEvent::Posted { controller: 5, pooled: 5, reply: Ok(300) };
    match step(&mut state, "a", &config, posted) {
        ConnectAction::Finish { result, events } => {
            assert_eq!(result, Ok(300));
            assert!(events.is_empty());
        }
        _ => panic!("the connection went on"),
    }
    assert_eq!(state.controller(&text("a")), Some(&5));
    assert_eq!(state.pooled_controller(&config), Some(&5));
    assert_eq!(state.next_conn_id, -1);
}

#[test]
fn a_connected_controller_is_reused() {
    let mut state = state_with(&["a", "b"]);
    let config = cover();
    let posted = ConnectEvent::Posted { controller: 5, pooled: 5, reply: Ok(300) };
    step(&mut state, "a", &config, posted);
    let action = step(&mut state, "b", &config, ConnectEvent::Begin);
    assert!(matches!(action, ConnectAction::CheckPooled));
    match step(&mut state, "b", &config, ConnectEvent::PoolChecked(Some(5))) {
        ConnectAction::Finish { result, events } => {
            assert_eq!(result, Ok(-1));
            assert_eq!(events, reuse_notices(-1));
        }
        _ => panic!("the connection went on"),
    }
    assert_eq!(state.controller(&text("b")), Some(&5));
    assert_eq!(state.pooled_controller(&config), Some(&5));
    match step(&mut state, "a", &config, ConnectEvent::PoolChecked(Some(5))) {
        ConnectAction::Finish { result, .. } => assert_eq!(result, Ok(-2)),
        _ => panic!("the connection went on"),
    }
}

#[test]
fn a_negative_id_tells_a_reuse() {
    let mut state = state_with(&["a"]);
    let config = cover();
    for n in 1..=5 {
        let posted = ConnectEvent::Posted { controller: 5, pooled: 5, reply: Ok(n) };
        match step(&mut state, "a", &config, posted) {
            ConnectAction::Finish { result, .. } => assert_eq!(result, Ok(n)),
            _ => panic!("the connection went on"),
        }
        match step(&mut state, "a", &config, ConnectEvent::PoolChecked(Some(5))) {
            ConnectAction::Finish { result, .. } => assert_eq!(result, Ok(-n)),
            _ => panic!("the connection went on"),
        }
    }
}

#[test]
fn a_stale_controller_is_not_reused() {
    let mut state = state_with(&["a"]);
    let config = cover();
    let posted = ConnectEvent::Posted { controller: 5, pooled: 5, reply: Ok(300) };
    step(&mut state, "a", &config, posted);
    let action = step(&mut state, "a", &config, ConnectEvent::PoolChecked(None));
    assert!(matches!(action, ConnectAction::Build(_)));
    assert_eq!(state.pooled_controller(&config), None);
    assert_eq!(state.controller(&text("a")), Some(&5));
}

#[test]
fn a_reuse_for_an_unknown_instance_spends_an_id() {
    let mut state = state_with(&["a"]);
    let config = cover();
    let action = step(&mut state, "gone", &config, ConnectEvent::PoolChecked(Some(5)));
    assert_eq!(failure(action), "Instance not found");
    assert_eq!(state.next_conn_id, -2);
}

#[test]
fn a_connection_for_an_unknown_instance_is_pooled() {
    let mut state = state_with(&[]);
    let config = cover();
    let posted = ConnectEvent::Posted { controller: 5, pooled: 5, reply: Ok(300) };
    assert_eq!(failure(step(&mut state, "gone", &config, posted)), "Instance not found");
    assert_eq!(state.pooled_controller(&config), Some(&5));
}

#[test]
fn a_bad_configuration_ends_the_connection() {
    let mut state = state_with(&["a"]);
    let action = step(&mut state, "a", &adb("?", "1"), ConnectEvent::Begin);
    assert_eq!(
        failure(action),
        "Invalid screencap_methods '?': invalid digit found in string"
    );
}

#[test]
fn a_failure_of_the_framework_ends_the_connection() {
    let mut state = state_with(&["a"]);
    let config = cover();
    let action = step(&mut state, "a", &config, ConnectEvent::Built(Err(text("no device"))));
    assert_eq!(failure(action), "no device");
    let action = step(&mut state, "a", &config, ConnectEvent::SinkAdded(5, Err(text("no sink"))));
    assert_eq!(failure(action), "no sink");
    let posted = ConnectEvent::Posted { controller: 5, pooled: 5, reply: Err(text("not posted")) };
    assert_eq!(failure(step(&mut state, "a", &config, posted)), "not posted");
    assert_eq!(state.controller(&text("a")), None);
    assert_eq!(state.controller_pool.len(), 0);
}

#[test]
fn numbers_are_written_in_decimal() {
    assert_eq!(decimal_text(0), "0");
    assert_eq!(decimal_text(1070), "1070");
    assert_eq!(decimal_text(u64::MAX), "18446744073709551615");
    assert_eq!(signed_decimal_text(-1), "-1");
    assert_eq!(signed_decimal_text(25), "25");
    assert_eq!(signed_decimal_text(i64::MIN), "-9223372036854775808");
    assert_eq!(signed_decimal_text(i64::MAX), "9223372036854775807");
}

#[test]
fn leading_letters_are_dropped() {
    assert_eq!(trim_leading("vv1.v", 'v'), "1.v");
    assert_eq!(trim_leading("V1", 'v'), "V1");
    assert_eq!(trim_leading("", 'v'), "");
    assert_eq!(trim_leading("v", 'v'), "");
    assert!(text_is("unknown", "unknown"));
    assert!(!text_is("unknown", "Unknown"));
}

#[test]
fn parts_are_found() {
    assert!(contains("it is already loaded", "already loaded"));
    assert!(contains("already loaded", "already loaded"));
    assert!(contains("\u{e9}\u{e8}a\u{e9}", "a\u{e9}"));
    assert!(contains("aab", "ab"));
    assert!(contains("", ""));
    assert!(contains("a", ""));
    assert!(!contains("", "a"));
    assert!(!contains("already  loaded", "already loaded"));
    assert!(!contains("already loade", "already loaded"));
}
