//! What a connection does with what was configured.

use vstd::prelude::*;

use crate::config::{ConfigView, ControllerConfig};
use crate::connect::{
    connect_step, ConnectAction, ConnectEvent, ControllerPlan, GamepadKind,
};
use crate::state::StateView;
use crate::text::{parse_u64_error, parsed_u64, signed_decimal};

verus! {

/// Whether a connection has nothing to reuse: no controller is pooled for its
/// configuration, or the one that is said that it is not connected.
pub open spec fn has_nothing_to_reuse<C, R, T>(
    s: StateView<C, R, T>,
    config: ConfigView,
    event: ConnectEvent<C>,
) -> bool {
    ||| event is Begin && !s.controller_pool.contains_key(config)
    ||| event matches ConnectEvent::PoolChecked(None)
}

/// Two configurations that say the same are the same in every field, so no
/// two that differ share a controller.
pub proof fn law_configurations_are_told_apart(one: ControllerConfig, two: ControllerConfig)
    requires
        one@ == two@,
    ensures
        match one {
            ControllerConfig::Adb { adb_path, address, screencap_methods, input_methods, config } =>
                two matches ControllerConfig::Adb {
                adb_path: p,
                address: a,
                screencap_methods: s,
                input_methods: i,
                config: c,
            } && adb_path@ == p@ && address@ == a@ && screencap_methods@ == s@ && input_methods@
                == i@ && config@ == c@,
            ControllerConfig::Win32 { .. } => two == one,
            ControllerConfig::PlayCover { address, uuid } => two matches
                ControllerConfig::PlayCover { address: a, uuid: u } && address@ == a@ && uuid is Some
                == u is Some && (uuid is Some ==> uuid->0@ == u->0@),
            ControllerConfig::Gamepad { handle, gamepad_type, screencap_method } => two matches
                ControllerConfig::Gamepad { handle: h, gamepad_type: g, screencap_method: s }
                && handle == h && screencap_method == s && gamepad_type is Some == g is Some && (
            gamepad_type is Some ==> gamepad_type->0@ == g->0@),
        },
{
}

/// Whether a number has a bit.
pub open spec fn has_bit(bits: u64, bit: u64) -> bool {
    (bits >> bit) & 1 == 1
}

proof fn lemma_known_bits(bits: u64)
    ensures
        forall|bit: u64| #![trigger has_bit(bits & 0x7ff, bit)]
            bit < 64 ==> has_bit(bits & 0x7ff, bit) == (has_bit(bits, bit) && bit < 11),
{
    assert forall|bit: u64| #![trigger has_bit(bits & 0x7ff, bit)] bit < 64 implies has_bit(
        bits & 0x7ff,
        bit,
    ) == (has_bit(bits, bit) && bit < 11) by {
        assert(bit < 64 ==> ((((bits & 0x7ff) >> bit) & 1 == 1) == ((bits >> bit) & 1 == 1 && bit
            < 11))) by (bit_vector);
    }
}

/// The controller of a window is built for the handle that was configured,
/// with the screencap method that was configured, bit for bit, and with those
/// bits of the mouse and the keyboard method that are known flags.
pub proof fn law_window_is_built_as_configured<C, R, T>(
    s: StateView<C, R, T>,
    t: StateView<C, R, T>,
    id: Seq<char>,
    event: ConnectEvent<C>,
    action: ConnectAction<C>,
    config: ControllerConfig,
    handle: u64,
    screencap_method: u64,
    mouse_method: u64,
    keyboard_method: u64,
)
    requires
        config == (ControllerConfig::Win32 {
            handle,
            screencap_method,
            mouse_method,
            keyboard_method,
        }),
        has_nothing_to_reuse(s, config@, event),
        (t, action@) == connect_step(s, id, config@, event),
    ensures
        ({
            &&& action matches ConnectAction::Build(
                ControllerPlan::Win32 { handle: h, screencap_bits, mouse_bits, keyboard_bits },
            )
            &&& h == handle
            &&& screencap_bits == screencap_method
            &&& forall|bit: u64| #![trigger has_bit(screencap_bits, bit)]
                bit < 64 ==> has_bit(screencap_bits, bit) == has_bit(screencap_method, bit)
            &&& forall|bit: u64| #![trigger has_bit(mouse_bits, bit)]
                bit < 64 ==> has_bit(mouse_bits, bit) == (has_bit(mouse_method, bit) && bit < 11)
            &&& forall|bit: u64| #![trigger has_bit(keyboard_bits, bit)]
                bit < 64 ==> has_bit(keyboard_bits, bit) == (has_bit(keyboard_method, bit) && bit
                    < 11)
            &&& mouse_bits == mouse_method & 0x7ff
            &&& keyboard_bits == keyboard_method & 0x7ff
        }),
{
    lemma_known_bits(mouse_method);
    lemma_known_bits(keyboard_method);
}

/// The controller of an ADB device is built for the device that was
/// configured, with the numbers that its two settings write.
pub proof fn law_device_is_built_as_configured<C, R, T>(
    s: StateView<C, R, T>,
    t: StateView<C, R, T>,
    id: Seq<char>,
    event: ConnectEvent<C>,
    action: ConnectAction<C>,
    config: ControllerConfig,
    screencap: u64,
    input: u64,
)
    requires
        config matches ControllerConfig::Adb { screencap_methods, input_methods, .. }
            && parsed_u64(screencap_methods@) == Some(screencap) && parsed_u64(input_methods@)
            == Some(input),
        has_nothing_to_reuse(s, config@, event),
        (t, action@) == connect_step(s, id, config@, event),
    ensures
        ({
            &&& config matches ControllerConfig::Adb {
                adb_path,
                address,
                config: extras,
                screencap_methods: _,
                input_methods: _,
            }
            &&& action matches ConnectAction::Build(
                ControllerPlan::Adb {
                    adb_path: p,
                    address: a,
                    screencap_bits,
                    input_bits,
                    config: c,
                },
            )
            &&& p@ == adb_path@
            &&& a@ == address@
            &&& c@ == extras@
            &&& screencap_bits == screencap
            &&& input_bits == input
        }),
{
}

/// An ADB configuration with a setting that is no number ends the connection:
/// the first such setting is named and quoted, with the words for what is
/// wrong with it. No instance changes and no notice is given.
pub proof fn law_bad_settings_are_named<C, R, T>(
    s: StateView<C, R, T>,
    t: StateView<C, R, T>,
    id: Seq<char>,
    event: ConnectEvent<C>,
    action: ConnectAction<C>,
    config: ControllerConfig,
)
    requires
        config matches ControllerConfig::Adb { screencap_methods, input_methods, .. } && (
        parsed_u64(screencap_methods@) is None || parsed_u64(input_methods@) is None),
        has_nothing_to_reuse(s, config@, event),
        (t, action@) == connect_step(s, id, config@, event),
    ensures
        ({
            &&& config matches ControllerConfig::Adb {
                adb_path: _,
                address: _,
                config: _,
                screencap_methods,
                input_methods,
            }
            &&& action matches ConnectAction::Finish { result: Err(e), events }
            &&& e@ == if parsed_u64(screencap_methods@) is None {
                "Invalid "@ + "screencap_methods"@ + " '"@ + screencap_methods@ + "': "@
                    + parse_u64_error(screencap_methods@)
            } else {
                "Invalid "@ + "input_methods"@ + " '"@ + input_methods@ + "': "@ + parse_u64_error(
                    input_methods@,
                )
            }
            &&& events@.len() == 0
            &&& t.instances == s.instances
        }),
{
    if let ConnectAction::Finish { events, .. } = action {
        assert(action@->events.len() == events@.len());
    }
}

/// The controller of an app is built for the address that was configured,
/// and for the uuid that was configured, or an empty one where there is none.
pub proof fn law_app_is_built_as_configured<C, R, T>(
    s: StateView<C, R, T>,
    t: StateView<C, R, T>,
    id: Seq<char>,
    event: ConnectEvent<C>,
    action: ConnectAction<C>,
    config: ControllerConfig,
    address: String,
    uuid: Option<String>,
)
    requires
        config == (ControllerConfig::PlayCover { address, uuid }),
        has_nothing_to_reuse(s, config@, event),
        (t, action@) == connect_step(s, id, config@, event),
    ensures
        ({
            &&& action matches ConnectAction::Build(
                ControllerPlan::PlayCover { address: a, uuid: u },
            )
            &&& a@ == address@
            &&& uuid matches Some(given) ==> u@ == given@
            &&& uuid is None ==> u@.len() == 0
        }),
{
}

/// A gamepad is built for the handle that was configured. It is a DualShock 4
/// exactly when it is named so, in full or for short. Its screencap method is
/// the one that was configured, or bit two alone where there is none.
pub proof fn law_gamepad_is_built_as_configured<C, R, T>(
    s: StateView<C, R, T>,
    t: StateView<C, R, T>,
    id: Seq<char>,
    event: ConnectEvent<C>,
    action: ConnectAction<C>,
    config: ControllerConfig,
    handle: u64,
    gamepad_type: Option<String>,
    screencap_method: Option<u64>,
)
    requires
        config == (ControllerConfig::Gamepad { handle, gamepad_type, screencap_method }),
        has_nothing_to_reuse(s, config@, event),
        (t, action@) == connect_step(s, id, config@, event),
    ensures
        ({
            &&& action matches ConnectAction::Build(
                ControllerPlan::Gamepad { handle: h, kind, screencap_bits },
            )
            &&& h == handle
            &&& kind == GamepadKind::DualShock4 <==> (gamepad_type matches Some(name) && (name@
                == "DualShock4"@ || name@ == "DS4"@))
            &&& kind == GamepadKind::DualShock4 || kind == GamepadKind::Xbox360
            &&& screencap_method matches Some(bits) ==> screencap_bits == bits
            &&& screencap_method is None ==> screencap_bits == 4
        }),
{
}

/// A connection that has nothing to reuse drops the entry of its
/// configuration from the pool, and changes nothing else.
pub proof fn law_building_drops_the_stale_entry<C, R, T>(
    s: StateView<C, R, T>,
    t: StateView<C, R, T>,
    id: Seq<char>,
    event: ConnectEvent<C>,
    action: ConnectAction<C>,
    config: ConfigView,
    other: ConfigView,
)
    requires
        has_nothing_to_reuse(s, config, event),
        (t, action@) == connect_step(s, id, config, event),
    ensures
        !t.controller_pool.contains_key(config),
        other != config ==> t.controller_pool.contains_key(other)
            == s.controller_pool.contains_key(other),
        other != config && s.controller_pool.contains_key(other) ==> t.controller_pool[other]
            == s.controller_pool[other],
        t.instances == s.instances,
        t.next_conn_id == s.next_conn_id,
        t.lib_dir == s.lib_dir,
        t.resource_dir == s.resource_dir,
        t.cached_adb_devices == s.cached_adb_devices,
        t.cached_win32_windows == s.cached_win32_windows,
{
}

/// A connection that finds a controller pooled for its configuration asks it
/// whether it is connected, and changes nothing yet.
pub proof fn law_pooled_controllers_are_asked<C, R, T>(
    s: StateView<C, R, T>,
    t: StateView<C, R, T>,
    id: Seq<char>,
    action: ConnectAction<C>,
    config: ConfigView,
)
    requires
        s.controller_pool.contains_key(config),
        (t, action@) == connect_step(s, id, config, ConnectEvent::Begin),
    ensures
        action is CheckPooled,
        t == s,
{
}

/// A new controller gets its sink, then a short side of 720, then its
/// connection, and it is the same controller all the way. That the short side
/// was not accepted stops nothing. Nothing is kept before the connection was
/// posted.
pub proof fn law_new_controllers_are_set_up<C, R, T>(
    s: StateView<C, R, T>,
    t: StateView<C, R, T>,
    id: Seq<char>,
    config: ConfigView,
    controller: C,
    short_side: Result<(), String>,
    action: ConnectAction<C>,
)
    ensures
        (t, action@) == connect_step(s, id, config, ConnectEvent::Built(Ok(controller))) ==> t == s
            && action == ConnectAction::AddSink(controller),
        (t, action@) == connect_step(s, id, config, ConnectEvent::SinkAdded(controller, Ok(())))
            ==> t == s && action == ConnectAction::SetShortSide(controller, 720),
        (t, action@) == connect_step(s, id, config, ConnectEvent::ShortSideSet(controller, short_side))
            ==> t == s && action == ConnectAction::PostConnection(controller),
{
}

/// Where the framework cannot build a controller, add its sink or post its
/// connection, the connection ends with the framework's own words. Nothing
/// changes, and no notice is given.
pub proof fn law_framework_errors_are_handed_on<C, R, T>(
    s: StateView<C, R, T>,
    t: StateView<C, R, T>,
    id: Seq<char>,
    config: ConfigView,
    event: ConnectEvent<C>,
    error: String,
    action: ConnectAction<C>,
)
    requires
        ({
            ||| event == ConnectEvent::<C>::Built(Err(error))
            ||| event matches ConnectEvent::SinkAdded(_, Err(e)) && e == error
            ||| event matches ConnectEvent::Posted { reply: Err(e), .. } && e == error
        }),
        (t, action@) == connect_step(s, id, config, event),
    ensures
        t == s,
        action matches ConnectAction::Finish { result: Err(e), events } && e@ == error@
            && events@.len() == 0,
{
    if let ConnectAction::Finish { events, .. } = action {
        assert(action@->events.len() == events@.len());
    }
}

/// What a reused connection is answered with: the id that was next, and two
/// notices, that the connection starts and that it succeeded, both with that
/// id in decimal.
pub proof fn law_reuse_is_announced<C, R, T>(
    s: StateView<C, R, T>,
    t: StateView<C, R, T>,
    id: Seq<char>,
    config: ConfigView,
    controller: C,
    action: ConnectAction<C>,
)
    requires
        s.instances.contains_key(id),
        (t, action@) == connect_step(
            s,
            id,
            config,
            ConnectEvent::PoolChecked(Some(controller)),
        ),
    ensures
        ({
            let details = "{\"ctrl_id\":"@ + signed_decimal(s.next_conn_id as int)
                + ",\"action\":\"Connect\"}"@;
            &&& action matches ConnectAction::Finish { result: Ok(conn_id), events }
            &&& conn_id == s.next_conn_id
            &&& events@.len() == 2
            &&& events@[0].message@ == "Controller.Action.Starting"@
            &&& events@[1].message@ == "Controller.Action.Succeeded"@
            &&& events@[0].details@ == details
            &&& events@[1].details@ == details
            &&& t.next_conn_id != s.next_conn_id
            &&& s.next_conn_id > i64::MIN ==> t.next_conn_id == s.next_conn_id - 1
        }),
{
    if let ConnectAction::Finish { events, .. } = action {
        assert(action@->events.len() == events@.len());
        assert(action@->events[0] == events@[0]@);
        assert(action@->events[1] == events@[1]@);
    }
}

/// A connection that was posted is answered with the id of the framework and
/// without notices.
pub proof fn law_posted_ids_are_handed_on<C, R, T>(
    s: StateView<C, R, T>,
    t: StateView<C, R, T>,
    id: Seq<char>,
    config: ConfigView,
    controller: C,
    pooled: C,
    conn_id: i64,
    action: ConnectAction<C>,
)
    requires
        s.instances.contains_key(id),
        (t, action@) == connect_step(
            s,
            id,
            config,
            ConnectEvent::Posted { controller, pooled, reply: Ok(conn_id) },
        ),
    ensures
        action matches ConnectAction::Finish { result: Ok(answer), events } && answer == conn_id
            && events@.len() == 0,
{
    if let ConnectAction::Finish { events, .. } = action {
        assert(action@->events.len() == events@.len());
    }
}

/// A connection for an instance that is not there fails, whether it is served
/// from the pool or anew, and makes no instance. A reuse spends its id all
/// the same, and a new controller is pooled all the same.
pub proof fn law_connections_need_an_instance<C, R, T>(
    s: StateView<C, R, T>,
    t: StateView<C, R, T>,
    id: Seq<char>,
    config: ConfigView,
    controller: C,
    pooled: C,
    conn_id: i64,
    event: ConnectEvent<C>,
    action: ConnectAction<C>,
)
    requires
        !s.instances.contains_key(id),
        event == ConnectEvent::PoolChecked(Some(controller)) || event == (ConnectEvent::Posted {
            controller,
            pooled,
            reply: Ok(conn_id),
        }),
        (t, action@) == connect_step(s, id, config, event),
    ensures
        action matches ConnectAction::Finish { result: Err(e), events } && e@
            == "Instance not found"@ && events@.len() == 0,
        t.instances == s.instances,
        event is PoolChecked ==> t.controller_pool == s.controller_pool && t.next_conn_id
            != s.next_conn_id,
        event is Posted ==> t.controller_pool == s.controller_pool.insert(config, pooled)
            && t.next_conn_id == s.next_conn_id,
{
    if let ConnectAction::Finish { events, .. } = action {
        assert(action@->events.len() == events@.len());
    }
}

/// Whether no instance of a state has this configuration.
pub open spec fn nobody_has<C, R, T>(s: StateView<C, R, T>, config: ConfigView) -> bool {
    forall|id: Seq<char>| #[trigger]
        s.instances.contains_key(id) ==> s.instances[id].controller_config != Some(config)
}

/// A connection that was served gives the instance the controller under the
/// configuration and takes its tasker away; its resource, its tasks and its
/// stop stay. The pool then has an entry for the configuration, which is the
/// one it had for a reuse, and the new one otherwise. Of the other entries
/// that of the configuration that the instance had goes, exactly when nobody
/// has it any more; all others stay.
pub proof fn law_served_connections<C, R, T>(
    s: StateView<C, R, T>,
    t: StateView<C, R, T>,
    id: Seq<char>,
    config: ConfigView,
    other: ConfigView,
    controller: C,
    pooled: C,
    conn_id: i64,
    event: ConnectEvent<C>,
    action: ConnectAction<C>,
)
    requires
        s.instances.contains_key(id),
        ({
            ||| event == ConnectEvent::PoolChecked(Some(controller))
                && s.controller_pool.contains_key(config) && s.controller_pool[config] == pooled
            ||| event == (ConnectEvent::Posted { controller, pooled, reply: Ok(conn_id) })
        }),
        (t, action@) == connect_step(s, id, config, event),
    ensures
        ({
            let before = s.instances[id];
            let after = t.instances[id];
            &&& t.instances.contains_key(id)
            &&& after.controller == Some(controller)
            &&& after.controller_config == Some(config)
            &&& after.tasker is None
            &&& after.resource == before.resource
            &&& after.task_ids == before.task_ids
            &&& after.stop_in_progress == before.stop_in_progress
            &&& after.stop_started_at == before.stop_started_at
        }),
        t.controller_pool.contains_key(config),
        t.controller_pool[config] == pooled,
        other != config && s.instances[id].controller_config == Some(other) && nobody_has(t, other)
            ==> !t.controller_pool.contains_key(other),
        other != config && !(s.instances[id].controller_config == Some(other) && nobody_has(
            t,
            other,
        )) ==> t.controller_pool.contains_key(other) == s.controller_pool.contains_key(other) && (
        s.controller_pool.contains_key(other) ==> t.controller_pool[other]
            == s.controller_pool[other]),
        t.lib_dir == s.lib_dir,
        t.resource_dir == s.resource_dir,
        t.cached_adb_devices == s.cached_adb_devices,
        t.cached_win32_windows == s.cached_win32_windows,
        event is Posted ==> t.next_conn_id == s.next_conn_id,
{
    assert(t.instances.contains_key(id));
}

} // verus!
