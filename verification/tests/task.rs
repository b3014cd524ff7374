//! Running and stopping tasks.

use maa_core::config::ControllerConfig;
use maa_core::resource::{maa_destroy_resource, maa_load_resource, LoadEvent, ResourceLoad};
use maa_core::state::{maa_create_instance, update_instance_controller, MaaState};
use maa_core::task::{
    maa_get_task_status, maa_is_running, maa_override_pipeline, maa_run_task, maa_stop_task,
    read_status, PipelineOverride, RunAction, RunEvent, StatusAction, StatusEvent, StopAction,
    TaskRequest, TaskStatus, STOP_GRACE_NANOS,
};

fn text(t: &str) -> String {
    t.to_string()
}

fn config() -> ControllerConfig {
    ControllerConfig::PlayCover { address: text("x"), uuid: None }
}

fn request() -> TaskRequest {
    TaskRequest {
        instance_id: text("a"),
        entry: text("Start"),
        pipeline_override: text("{\"Start\":{}}"),
    }
}

fn add_resource(state: &mut MaaState<u32, u32, u32>) {
    let mut load = ResourceLoad::new(vec![]);
    maa_load_resource(state, &mut load, &text("a"), LoadEvent::ActionsRegistered(2, Ok(())));
}

/// An instance that has a resource and a controller.
fn ready_state() -> MaaState<u32, u32, u32> {
    let mut state = MaaState::new();
    assert_eq!(maa_create_instance(&mut state, text("a")), Ok(()));
    add_resource(&mut state);
    assert_eq!(update_instance_controller(&mut state, &text("a"), 1, config()), Ok(()));
    state
}

/// An instance that has a tasker, too.
fn tasker_state() -> MaaState<u32, u32, u32> {
    let mut state = ready_state();
    let action = step(&mut state, RunEvent::Bound(3, Ok(())));
    assert_eq!(action, RunAction::CheckInited);
    state
}

fn step(state: &mut MaaState<u32, u32, u32>, event: RunEvent<u32>) -> RunAction<u32> {
    maa_run_task(state, &request(), event)
}

fn failed(message: &str) -> RunAction<u32> {
    RunAction::Finish(Err(text(message)))
}

fn task_ids(state: &MaaState<u32, u32, u32>) -> Vec<i64> {
    state.instance(&text("a")).unwrap().task_ids.clone()
}

#[test]
fn a_run_needs_all_its_parts() {
    let mut state: MaaState<u32, u32, u32> = MaaState::new();
    assert_eq!(step(&mut state, RunEvent::Begin), failed("Instance not found"));
    assert_eq!(maa_create_instance(&mut state, text("a")), Ok(()));
    assert_eq!(step(&mut state, RunEvent::Begin), failed("Resource not loaded"));
    add_resource(&mut state);
    assert_eq!(step(&mut state, RunEvent::Begin), failed("Controller not connected"));
    assert_eq!(
        step(&mut state, RunEvent::Bound(3, Ok(()))),
        failed("Controller not connected")
    );
    assert_eq!(state.tasker(&text("a")), None);
}

#[test]
fn a_first_run_makes_a_tasker() {
    let mut state = ready_state();
    assert_eq!(step(&mut state, RunEvent::Begin), RunAction::CreateTasker);
    assert_eq!(step(&mut state, RunEvent::Created(Ok(3))), RunAction::AddSink(3));
    assert_eq!(step(&mut state, RunEvent::SinkAdded(3, Ok(()))), RunAction::AddContextSink(3));
    assert_eq!(step(&mut state, RunEvent::ContextSinkAdded(3, Ok(()))), RunAction::Bind(3));
    assert_eq!(state.tasker(&text("a")), None);
    assert_eq!(step(&mut state, RunEvent::Bound(3, Ok(()))), RunAction::CheckInited);
    assert_eq!(state.tasker(&text("a")), Some(&3));
    assert_eq!(
        step(&mut state, RunEvent::Inited(true)),
        RunAction::PostTask { entry: text("Start"), pipeline_override: text("{\"Start\":{}}") }
    );
    assert_eq!(step(&mut state, RunEvent::Posted(Ok(77))), RunAction::Finish(Ok(77)));
    assert_eq!(task_ids(&state), vec![77]);
}

#[test]
fn a_second_run_keeps_the_tasker() {
    let mut state = tasker_state();
    step(&mut state, RunEvent::Posted(Ok(77)));
    assert_eq!(step(&mut state, RunEvent::Begin), RunAction::CheckInited);
    step(&mut state, RunEvent::Posted(Ok(78)));
    assert_eq!(task_ids(&state), vec![77, 78]);
    assert_eq!(state.tasker(&text("a")), Some(&3));
}

#[test]
fn a_run_that_fails_changes_nothing() {
    let mut state = ready_state();
    assert_eq!(step(&mut state, RunEvent::Created(Err(text("e1")))), failed("e1"));
    assert_eq!(step(&mut state, RunEvent::SinkAdded(3, Err(text("e2")))), failed("e2"));
    assert_eq!(step(&mut state, RunEvent::ContextSinkAdded(3, Err(text("e3")))), failed("e3"));
    assert_eq!(step(&mut state, RunEvent::Bound(3, Err(text("e4")))), failed("e4"));
    assert_eq!(step(&mut state, RunEvent::Inited(false)), failed("Tasker not initialized"));
    assert_eq!(step(&mut state, RunEvent::Posted(Err(text("e5")))), failed("e5"));
    assert_eq!(state.tasker(&text("a")), None);
    assert!(task_ids(&state).is_empty());
    let mut empty: MaaState<u32, u32, u32> = MaaState::new();
    assert_eq!(step(&mut empty, RunEvent::Posted(Ok(1))), failed("Instance not found"));
}

#[test]
fn new_parts_need_a_new_tasker() {
    let mut state = tasker_state();
    assert_eq!(update_instance_controller(&mut state, &text("a"), 9, config()), Ok(()));
    assert_eq!(step(&mut state, RunEvent::Begin), RunAction::CreateTasker);
    let mut state = tasker_state();
    assert_eq!(maa_destroy_resource(&mut state, text("a")), Ok(()));
    assert_eq!(state.tasker(&text("a")), None);
    assert_eq!(step(&mut state, RunEvent::Begin), failed("Resource not loaded"));
    add_resource(&mut state);
    assert_eq!(step(&mut state, RunEvent::Begin), RunAction::CreateTasker);
}

#[test]
fn codes_are_read() {
    assert_eq!(read_status(Some(1000)), TaskStatus::Pending);
    assert_eq!(read_status(Some(2000)), TaskStatus::Running);
    assert_eq!(read_status(Some(3000)), TaskStatus::Succeeded);
    assert_eq!(read_status(Some(4000)), TaskStatus::Failed);
    assert_eq!(read_status(Some(0)), TaskStatus::Failed);
    assert_eq!(read_status(None), TaskStatus::Failed);
}

#[test]
fn a_status_is_asked_of_the_tasker() {
    let state = tasker_state();
    let ask = |event: StatusEvent| maa_get_task_status(&state, &text("a"), 77, event);
    assert_eq!(ask(StatusEvent::Begin), StatusAction::AskDetail(77));
    assert_eq!(
        ask(StatusEvent::Detail(Ok(Some(3000)))),
        StatusAction::Finish(Ok(TaskStatus::Succeeded))
    );
    assert_eq!(
        ask(StatusEvent::Detail(Ok(None))),
        StatusAction::Finish(Ok(TaskStatus::Failed))
    );
    assert_eq!(
        ask(StatusEvent::Detail(Err(text("no detail")))),
        StatusAction::Finish(Err(text("no detail")))
    );
}

#[test]
fn a_status_needs_a_tasker() {
    let state = ready_state();
    let ask = |name: &str| maa_get_task_status(&state, &text(name), 77, StatusEvent::Begin);
    assert_eq!(ask("a"), StatusAction::Finish(Err(text("Tasker not created"))));
    assert_eq!(ask("b"), StatusAction::Finish(Err(text("Instance not found"))));
}

#[test]
fn a_pipeline_is_overridden_at_the_tasker() {
    let state = tasker_state();
    assert_eq!(
        maa_override_pipeline(&state, text("a"), 77, text("{}")),
        Ok(PipelineOverride { tasker: &3, task_id: 77, pipeline_override: text("{}") })
    );
    assert_eq!(
        maa_override_pipeline(&state, text("b"), 77, text("{}")),
        Err(text("Instance not found"))
    );
    assert_eq!(
        maa_override_pipeline(&ready_state(), text("a"), 77, text("{}")),
        Err(text("Tasker not created"))
    );
}

#[test]
fn only_a_tasker_runs() {
    assert_eq!(maa_is_running(&tasker_state(), text("a"), true), Ok(true));
    assert_eq!(maa_is_running(&tasker_state(), text("a"), false), Ok(false));
    assert_eq!(maa_is_running(&ready_state(), text("a"), true), Ok(false));
    assert_eq!(
        maa_is_running(&ready_state(), text("b"), true),
        Err(text("Instance not found"))
    );
}

#[test]
fn a_stop_is_posted_once_within_the_grace() {
    let mut state = tasker_state();
    step(&mut state, RunEvent::Posted(Ok(77)));
    assert_eq!(maa_stop_task(&mut state, &text("a"), None, 1_000), Ok(StopAction::PostStop));
    assert!(task_ids(&state).is_empty());
    assert_eq!(maa_stop_task(&mut state, &text("a"), None, 1_001), Ok(StopAction::AskRunning));
    let within = 1_000 + STOP_GRACE_NANOS - 1;
    assert_eq!(
        maa_stop_task(&mut state, &text("a"), Some(true), within),
        Ok(StopAction::Nothing)
    );
    let after = 1_000 + 500_000_000;
    assert_eq!(
        maa_stop_task(&mut state, &text("a"), Some(true), after),
        Ok(StopAction::PostStop)
    );
    assert_eq!(state.instance(&text("a")).unwrap().stop_started_at, Some(after));
}

#[test]
fn a_stop_is_over_when_the_tasker_is() {
    let mut state = tasker_state();
    assert_eq!(maa_stop_task(&mut state, &text("a"), None, 0), Ok(StopAction::PostStop));
    assert_eq!(
        maa_stop_task(&mut state, &text("a"), Some(false), 1),
        Ok(StopAction::Nothing)
    );
    let instance = state.instance(&text("a")).unwrap();
    assert!(!instance.stop_in_progress);
    assert_eq!(instance.stop_started_at, None);
    assert_eq!(instance.tasker, Some(3));
    assert_eq!(maa_stop_task(&mut state, &text("a"), None, 2), Ok(StopAction::PostStop));
}

#[test]
fn a_stop_under_way_has_its_time() {
    let mut state = tasker_state();
    let timed = |state: &MaaState<u32, u32, u32>| {
        let instance = state.instance(&text("a")).unwrap();
        assert_eq!(instance.stop_in_progress, instance.stop_started_at.is_some());
        instance.stop_in_progress
    };
    assert!(!timed(&state));
    assert_eq!(maa_stop_task(&mut state, &text("a"), None, 7), Ok(StopAction::PostStop));
    assert!(timed(&state));
    assert_eq!(maa_stop_task(&mut state, &text("a"), Some(true), 8), Ok(StopAction::Nothing));
    assert!(timed(&state));
    assert_eq!(maa_stop_task(&mut state, &text("a"), Some(false), 9), Ok(StopAction::Nothing));
    assert!(!timed(&state));
}

#[test]
fn a_clock_that_went_back_counts_as_no_time() {
    let mut state = tasker_state();
    assert_eq!(maa_stop_task(&mut state, &text("a"), None, 9_000), Ok(StopAction::PostStop));
    assert_eq!(
        maa_stop_task(&mut state, &text("a"), Some(true), 8_000),
        Ok(StopAction::Nothing)
    );
}

#[test]
fn a_stop_needs_a_tasker() {
    let mut state = ready_state();
    assert_eq!(
        maa_stop_task(&mut state, &text("a"), None, 0),
        Err(text("Tasker not created"))
    );
    assert_eq!(
        maa_stop_task(&mut state, &text("b"), None, 0),
        Err(text("Instance not found"))
    );
    assert!(!state.instance(&text("a")).unwrap().stop_in_progress);
}
