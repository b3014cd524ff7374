//! Connecting a controller: reuse one that is pooled and connected, or build
//! a new one and put it into the pool.
//!
//! What has to be asked of the framework is handed out step by step as a
//! [`ConnectAction`]; its outcome comes back as a [`ConnectEvent`].

use vstd::prelude::*;

use crate::config::{ConfigView, ControllerConfig};
use crate::state::{
    after_update, conn_id_after, next_synthetic_conn_id, update_instance_controller, MaaState,
    StateView,
};
use crate::text::{
    is_file_name, is_path_in, parse_u64, parse_u64_error, parsed_u64, path_join, signed_decimal,
    signed_decimal_text, text_is,
};

verus! {

/// The short side that screenshots are scaled to.
pub const SHORT_SIDE: i32 = 720;

/// Which pad a virtual gamepad is.
#[derive(Debug, Clone, Copy, PartialEq, Eq)]
pub enum GamepadKind {
    Xbox360,
    DualShock4,
}

/// What a controller is to be built from.
#[derive(Debug, PartialEq, Eq)]
pub enum ControllerPlan {
    Adb {
        adb_path: String,
        address: String,
        screencap_bits: u64,
        input_bits: u64,
        config: String,
    },
    Win32 { handle: u64, screencap_bits: u64, mouse_bits: u64, keyboard_bits: u64 },
    PlayCover { address: String, uuid: String },
    Gamepad { handle: u64, kind: GamepadKind, screencap_bits: u64 },
}

pub enum PlanView {
    Adb {
        adb_path: Seq<char>,
        address: Seq<char>,
        screencap_bits: u64,
        input_bits: u64,
        config: Seq<char>,
    },
    Win32 { handle: u64, screencap_bits: u64, mouse_bits: u64, keyboard_bits: u64 },
    PlayCover { address: Seq<char>, uuid: Seq<char> },
    Gamepad { handle: u64, kind: GamepadKind, screencap_bits: u64 },
}

impl View for ControllerPlan {
    type V = PlanView;

    open spec fn view(&self) -> PlanView {
        match self {
            ControllerPlan::Adb { adb_path, address, screencap_bits, input_bits, config } =>
                PlanView::Adb {
                adb_path: adb_path@,
                address: address@,
                screencap_bits: *screencap_bits,
                input_bits: *input_bits,
                config: config@,
            },
            ControllerPlan::Win32 { handle, screencap_bits, mouse_bits, keyboard_bits } =>
                PlanView::Win32 {
                handle: *handle,
                screencap_bits: *screencap_bits,
                mouse_bits: *mouse_bits,
                keyboard_bits: *keyboard_bits,
            },
            ControllerPlan::PlayCover { address, uuid } => PlanView::PlayCover {
                address: address@,
                uuid: uuid@,
            },
            ControllerPlan::Gamepad { handle, kind, screencap_bits } => PlanView::Gamepad {
                handle: *handle,
                kind: *kind,
                screencap_bits: *screencap_bits,
            },
        }
    }
}

/// The bits of the input methods for Win32 windows that there are.
pub const WIN32_INPUT_BITS: u64 = 0x7ff;

/// The bit of the screencap method that a gamepad uses by default.
pub const DXGI_DESKTOP_DUP_BIT: u64 = 4;

/// `AdbScreencapMethod::from_bits_truncate`, then `bits`. Every bit is a
/// flag of this set, so none is dropped.
#[verifier::external_body]
fn adb_screencap_bits(bits: u64) -> (known: u64)
    ensures
        known == bits,
{
    maa_framework::common::AdbScreencapMethod::from_bits_truncate(bits).bits()
}

/// `AdbInputMethod::from_bits_truncate`, then `bits`. Every bit is a flag of
/// this set, so none is dropped.
#[verifier::external_body]
fn adb_input_bits(bits: u64) -> (known: u64)
    ensures
        known == bits,
{
    maa_framework::common::AdbInputMethod::from_bits_truncate(bits).bits()
}

/// `Win32ScreencapMethod::from_bits_truncate`, then `bits`. Every bit is a
/// flag of this set, so none is dropped.
#[verifier::external_body]
fn win32_screencap_bits(bits: u64) -> (known: u64)
    ensures
        known == bits,
{
    maa_framework::common::Win32ScreencapMethod::from_bits_truncate(bits).bits()
}

/// `Win32InputMethod::from_bits_truncate`, then `bits`: the bits that are
/// flags stay, the others go.
#[verifier::external_body]
fn win32_input_bits(bits: u64) -> (known: u64)
    ensures
        known == bits & WIN32_INPUT_BITS,
{
    maa_framework::common::Win32InputMethod::from_bits_truncate(bits).bits()
}

/// `Win32ScreencapMethod::DXGI_DESKTOP_DUP`, as its bit.
#[verifier::external_body]
fn dxgi_desktop_dup_bits() -> (bits: u64)
    ensures
        bits == DXGI_DESKTOP_DUP_BIT,
{
    maa_framework::common::Win32ScreencapMethod::DXGI_DESKTOP_DUP.bits()
}

/// The pad that a configuration names; an Xbox 360 pad where it names none
/// that is known.
pub open spec fn named_gamepad(name: Option<Seq<char>>) -> GamepadKind {
    match name {
        Some(n) if n == "DualShock4"@ || n == "DS4"@ => GamepadKind::DualShock4,
        _ => GamepadKind::Xbox360,
    }
}

/// What a setting that is no number is answered.
pub open spec fn invalid_setting(setting: Seq<char>, text: Seq<char>) -> Seq<char> {
    "Invalid "@ + setting + " '"@ + text + "': "@ + parse_u64_error(text)
}

/// The plan for a configuration, or what is wrong with it.
pub open spec fn planned(config: ConfigView) -> Result<PlanView, Seq<char>> {
    match config {
        ConfigView::Adb { adb_path, address, screencap_methods, input_methods, config } => {
            match (parsed_u64(screencap_methods), parsed_u64(input_methods)) {
                (Some(screencap_bits), Some(input_bits)) => Ok(
                    PlanView::Adb { adb_path, address, screencap_bits, input_bits, config },
                ),
                (None, _) => Err(invalid_setting("screencap_methods"@, screencap_methods)),
                (_, None) => Err(invalid_setting("input_methods"@, input_methods)),
            }
        },
        ConfigView::Win32 { handle, screencap_method, mouse_method, keyboard_method } => Ok(
            PlanView::Win32 {
                handle,
                screencap_bits: screencap_method,
                mouse_bits: mouse_method & WIN32_INPUT_BITS,
                keyboard_bits: keyboard_method & WIN32_INPUT_BITS,
            },
        ),
        ConfigView::PlayCover { address, uuid } => Ok(
            PlanView::PlayCover {
                address,
                uuid: match uuid {
                    Some(u) => u,
                    None => Seq::empty(),
                },
            },
        ),
        ConfigView::Gamepad { handle, gamepad_type, screencap_method } => Ok(
            PlanView::Gamepad {
                handle,
                kind: named_gamepad(gamepad_type),
                screencap_bits: match screencap_method {
                    Some(bits) => bits,
                    None => DXGI_DESKTOP_DUP_BIT,
                },
            },
        ),
    }
}

/// A reply of the framework, its error as a text.
pub open spec fn reply_view<X>(reply: Result<X, String>) -> Result<X, Seq<char>> {
    match reply {
        Ok(x) => Ok(x),
        Err(e) => Err(e@),
    }
}

/// A plan or an error, as what they say.
pub open spec fn plan_reply(reply: Result<ControllerPlan, String>) -> Result<PlanView, Seq<char>> {
    match reply {
        Ok(plan) => Ok(plan@),
        Err(e) => Err(e@),
    }
}

fn parse_setting(setting: &str, text: &String) -> (parsed: Result<u64, String>)
    ensures
        match parsed {
            Ok(n) => parsed_u64(text@) == Some(n),
            Err(e) => parsed_u64(text@) is None && e@ == invalid_setting(setting@, text@),
        },
{
    match parse_u64(text.as_str()) {
        Ok(n) => Ok(n),
        Err(e) => {
            let message = "Invalid ".to_string().concat(setting).concat(" '").concat(
                text.as_str(),
            ).concat("': ").concat(e.as_str());
            assert(message@ =~= invalid_setting(setting@, text@));
            Err(message)
        },
    }
}

/// Plans the controller for a configuration.
pub fn plan_controller(config: &ControllerConfig) -> (plan: Result<ControllerPlan, String>)
    ensures
        plan_reply(plan) == planned(config@),
{
    match config {
        ControllerConfig::Adb { adb_path, address, screencap_methods, input_methods, config } => {
            let screencap: u64 = match parse_setting("screencap_methods", screencap_methods) {
                Ok(n) => n,
                Err(e) => {
                    return Err(e);
                },
            };
            let input: u64 = match parse_setting("input_methods", input_methods) {
                Ok(n) => n,
                Err(e) => {
                    return Err(e);
                },
            };
            Ok(
                ControllerPlan::Adb {
                    adb_path: adb_path.clone(),
                    address: address.clone(),
                    screencap_bits: adb_screencap_bits(screencap),
                    input_bits: adb_input_bits(input),
                    config: config.clone(),
                },
            )
        },
        ControllerConfig::Win32 { handle, screencap_method, mouse_method, keyboard_method } => Ok(
            ControllerPlan::Win32 {
                handle: *handle,
                screencap_bits: win32_screencap_bits(*screencap_method),
                mouse_bits: win32_input_bits(*mouse_method),
                keyboard_bits: win32_input_bits(*keyboard_method),
            },
        ),
        ControllerConfig::PlayCover { address, uuid } => {
            let uuid = match uuid {
                Some(u) => u.clone(),
                None => String::new(),
            };
            Ok(ControllerPlan::PlayCover { address: address.clone(), uuid })
        },
        ControllerConfig::Gamepad { handle, gamepad_type, screencap_method } => {
            let kind = match gamepad_type {
                Some(name) => if text_is(name.as_str(), "DualShock4") || text_is(
                    name.as_str(),
                    "DS4",
                ) {
                    GamepadKind::DualShock4
                } else {
                    GamepadKind::Xbox360
                },
                None => GamepadKind::Xbox360,
            };
            let screencap_bits: u64 = match screencap_method {
                Some(bits) => win32_screencap_bits(*bits),
                None => dxgi_desktop_dup_bits(),
            };
            Ok(ControllerPlan::Gamepad { handle: *handle, kind, screencap_bits })
        },
    }
}

/// Where the agent binary lies: in the framework's directory, or next to the
/// program where that directory is not known.
pub fn agent_path(maafw_dir: Option<String>) -> (path: String)
    ensures
        match maafw_dir {
            Some(dir) => is_path_in(path@, dir@, "MaaAgentBinary"@),
            None => path@ == "./MaaAgentBinary"@,
        },
{
    match maafw_dir {
        Some(dir) => {
            proof {
                reveal_strlit("MaaAgentBinary");
                assert(is_file_name("MaaAgentBinary"@));
            }
            path_join(dir.as_str(), "MaaAgentBinary")
        },
        None => "./MaaAgentBinary".to_string(),
    }
}

/// A notice to the front end.
#[derive(Debug, PartialEq, Eq)]
pub struct CallbackEvent {
    pub message: String,
    pub details: String,
}

pub struct CallbackView {
    pub message: Seq<char>,
    pub details: Seq<char>,
}

impl View for CallbackEvent {
    type V = CallbackView;

    open spec fn view(&self) -> CallbackView {
        CallbackView { message: self.message@, details: self.details@ }
    }
}

/// What each notice of a list says.
pub open spec fn callback_views(events: Seq<CallbackEvent>) -> Seq<CallbackView> {
    events.map_values(|e: CallbackEvent| e@)
}

/// The details of a connection that was served from the pool.
pub open spec fn reuse_details(conn_id: i64) -> Seq<char> {
    "{\"ctrl_id\":"@ + signed_decimal(conn_id as int) + ",\"action\":\"Connect\"}"@
}

/// The notices of a connection that was served from the pool: the ones that
/// the framework would have given.
pub open spec fn reuse_events(conn_id: i64) -> Seq<CallbackView> {
    seq![
        CallbackView { message: "Controller.Action.Starting"@, details: reuse_details(conn_id) },
        CallbackView { message: "Controller.Action.Succeeded"@, details: reuse_details(conn_id) },
    ]
}

/// Makes the notices of a connection that was served from the pool.
pub fn reuse_notices(conn_id: i64) -> (events: Vec<CallbackEvent>)
    ensures
        callback_views(events@) == reuse_events(conn_id),
{
    let details = "{\"ctrl_id\":".to_string().concat(signed_decimal_text(conn_id).as_str()).concat(
        ",\"action\":\"Connect\"}",
    );
    let mut events: Vec<CallbackEvent> = Vec::new();
    events.push(
        CallbackEvent {
            message: "Controller.Action.Starting".to_string(),
            details: details.clone(),
        },
    );
    events.push(CallbackEvent { message: "Controller.Action.Succeeded".to_string(), details });
    assert(callback_views(events@) =~= reuse_events(conn_id));
    events
}

/// What came of the last action.
pub enum ConnectEvent<C> {
    /// The request came in.
    Begin,
    /// The pooled controller, where it said that it is connected.
    PoolChecked(Option<C>),
    Built(Result<C, String>),
    SinkAdded(C, Result<(), String>),
    ShortSideSet(C, Result<(), String>),
    /// The connection was posted; `pooled` is the same controller again, for
    /// the pool.
    Posted { controller: C, pooled: C, reply: Result<i64, String> },
}

/// What is to be done next.
pub enum ConnectAction<C> {
    /// Ask the pooled controller whether it is connected.
    CheckPooled,
    Build(ControllerPlan),
    AddSink(C),
    SetShortSide(C, i32),
    PostConnection(C),
    /// Give the notices, and answer.
    Finish { result: Result<i64, String>, events: Vec<CallbackEvent> },
}

pub enum ConnectActionView<C> {
    CheckPooled,
    Build(PlanView),
    AddSink(C),
    SetShortSide(C, i32),
    PostConnection(C),
    Finish { result: Result<i64, Seq<char>>, events: Seq<CallbackView> },
}

impl<C> View for ConnectAction<C> {
    type V = ConnectActionView<C>;

    open spec fn view(&self) -> ConnectActionView<C> {
        match self {
            ConnectAction::CheckPooled => ConnectActionView::CheckPooled,
            ConnectAction::Build(plan) => ConnectActionView::Build(plan@),
            ConnectAction::AddSink(c) => ConnectActionView::AddSink(*c),
            ConnectAction::SetShortSide(c, side) => ConnectActionView::SetShortSide(*c, *side),
            ConnectAction::PostConnection(c) => ConnectActionView::PostConnection(*c),
            ConnectAction::Finish { result, events } => ConnectActionView::Finish {
                result: reply_view(*result),
                events: callback_views(events@),
            },
        }
    }
}

/// The answer of a request that ends without notices.
pub open spec fn connect_end<C>(result: Result<i64, Seq<char>>) -> ConnectActionView<C> {
    ConnectActionView::Finish { result, events: Seq::empty() }
}

/// Nothing to reuse: an entry that is stale goes, and a controller is built.
pub open spec fn connect_anew<C, R, T>(s: StateView<C, R, T>, config: ConfigView) -> (
    StateView<C, R, T>,
    ConnectActionView<C>,
) {
    (
        StateView { controller_pool: s.controller_pool.remove(config), ..s },
        match planned(config) {
            Ok(plan) => ConnectActionView::Build(plan),
            Err(e) => connect_end(Err(e)),
        },
    )
}

/// A pooled controller is reused: it gets an id of its own, which is spent
/// whether or not there is an instance to take the controller.
pub open spec fn connect_reused<C, R, T>(
    s: StateView<C, R, T>,
    id: Seq<char>,
    config: ConfigView,
    controller: C,
) -> (StateView<C, R, T>, ConnectActionView<C>) {
    let conn_id = s.next_conn_id;
    (
        after_update(
            StateView { next_conn_id: conn_id_after(conn_id), ..s },
            id,
            controller,
            config,
        ),
        if s.instances.contains_key(id) {
            ConnectActionView::Finish { result: Ok(conn_id), events: reuse_events(conn_id) }
        } else {
            connect_end(Err("Instance not found"@))
        },
    )
}

/// A connection was posted: the controller is pooled, whether or not there
/// is an instance to take it.
pub open spec fn connect_posted<C, R, T>(
    s: StateView<C, R, T>,
    id: Seq<char>,
    config: ConfigView,
    controller: C,
    pooled: C,
    conn_id: i64,
) -> (StateView<C, R, T>, ConnectActionView<C>) {
    (
        after_update(
            StateView { controller_pool: s.controller_pool.insert(config, pooled), ..s },
            id,
            controller,
            config,
        ),
        if s.instances.contains_key(id) {
            connect_end(Ok(conn_id))
        } else {
            connect_end(Err("Instance not found"@))
        },
    )
}

/// One step of a connection.
pub open spec fn connect_step<C, R, T>(
    s: StateView<C, R, T>,
    id: Seq<char>,
    config: ConfigView,
    event: ConnectEvent<C>,
) -> (StateView<C, R, T>, ConnectActionView<C>) {
    match event {
        ConnectEvent::Begin => if s.controller_pool.contains_key(config) {
            (s, ConnectActionView::CheckPooled)
        } else {
            connect_anew(s, config)
        },
        ConnectEvent::PoolChecked(Some(controller)) => connect_reused(s, id, config, controller),
        ConnectEvent::PoolChecked(None) => connect_anew(s, config),
        ConnectEvent::Built(Ok(controller)) => (s, ConnectActionView::AddSink(controller)),
        ConnectEvent::Built(Err(e)) => (s, connect_end(Err(e@))),
        ConnectEvent::SinkAdded(controller, Ok(())) => (
            s,
            ConnectActionView::SetShortSide(controller, SHORT_SIDE),
        ),
        ConnectEvent::SinkAdded(_, Err(e)) => (s, connect_end(Err(e@))),
        // A target that was not accepted does not stop the connection.
        ConnectEvent::ShortSideSet(controller, _) => (
            s,
            ConnectActionView::PostConnection(controller),
        ),
        ConnectEvent::Posted { controller, pooled, reply: Ok(conn_id) } => connect_posted(
            s,
            id,
            config,
            controller,
            pooled,
            conn_id,
        ),
        ConnectEvent::Posted { reply: Err(e), .. } => (s, connect_end(Err(e@))),
    }
}

fn finish<C>(result: Result<i64, String>) -> (action: ConnectAction<C>)
    ensures
        action@ == connect_end::<C>(reply_view(result)),
{
    let events: Vec<CallbackEvent> = Vec::new();
    assert(callback_views(events@) =~= Seq::empty());
    ConnectAction::Finish { result, events }
}

fn build_anew<C, R, T>(state: &mut MaaState<C, R, T>, config: &ControllerConfig) -> (action:
    ConnectAction<C>)
    requires
        old(state).wf(),
    ensures
        final(state).wf(),
        (final(state)@, action@) == connect_anew(old(state)@, config@),
{
    state.controller_pool.remove(config);
    match plan_controller(config) {
        Ok(plan) => ConnectAction::Build(plan),
        Err(e) => finish(Err(e)),
    }
}

/// Takes a connection one step further: from what came of the last action to
/// the next one.
pub fn maa_connect_controller<C, R, T>(
    state: &mut MaaState<C, R, T>,
    instance_id: &String,
    config: &ControllerConfig,
    event: ConnectEvent<C>,
) -> (action: ConnectAction<C>)
    requires
        old(state).wf(),
    ensures
        final(state).wf(),
        (final(state)@, action@) == connect_step(old(state)@, instance_id@, config@, event),
{
    match event {
        ConnectEvent::Begin => if state.controller_pool.contains_key(config) {
            ConnectAction::CheckPooled
        } else {
            build_anew(state, config)
        },
        ConnectEvent::PoolChecked(Some(controller)) => {
            let conn_id: i64 = next_synthetic_conn_id(&mut state.next_conn_id);
            match update_instance_controller(state, instance_id, controller, config.clone()) {
                Ok(()) => ConnectAction::Finish {
                    result: Ok(conn_id),
                    events: reuse_notices(conn_id),
                },
                Err(e) => finish(Err(e)),
            }
        },
        ConnectEvent::PoolChecked(None) => build_anew(state, config),
        ConnectEvent::Built(Ok(controller)) => ConnectAction::AddSink(controller),
        ConnectEvent::Built(Err(e)) => finish(Err(e)),
        ConnectEvent::SinkAdded(controller, Ok(())) => ConnectAction::SetShortSide(
            controller,
            SHORT_SIDE,
        ),
        ConnectEvent::SinkAdded(_, Err(e)) => finish(Err(e)),
        ConnectEvent::ShortSideSet(controller, _) => ConnectAction::PostConnection(controller),
        ConnectEvent::Posted { controller, pooled, reply: Ok(conn_id) } => {
            state.controller_pool.insert(config.clone(), pooled);
            match update_instance_controller(state, instance_id, controller, config.clone()) {
                Ok(()) => finish(Ok(conn_id)),
                Err(e) => finish(Err(e)),
            }
        },
        ConnectEvent::Posted { controller: _, pooled: _, reply: Err(e) } => finish(Err(e)),
    }
}

} // verus!
