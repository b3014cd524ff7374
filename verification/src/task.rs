//! Running and stopping tasks.

use vstd::prelude::*;

use crate::connect::reply_view;
use crate::state::{with_instance, InstanceView, MaaState, StateView};

verus! {

/// How far a task is.
#[derive(Debug, Clone, Copy, PartialEq, Eq)]
pub enum TaskStatus {
    Pending,
    Running,
    Succeeded,
    Failed,
}

/// A task that is to be run.
#[derive(Debug, PartialEq, Eq)]
pub struct TaskRequest {
    pub instance_id: String,
    pub entry: String,
    pub pipeline_override: String,
}

/// What came of the last action.
pub enum RunEvent<T> {
    /// The request came in.
    Begin,
    Created(Result<T, String>),
    SinkAdded(T, Result<(), String>),
    ContextSinkAdded(T, Result<(), String>),
    Bound(T, Result<(), String>),
    Inited(bool),
    Posted(Result<i64, String>),
}

/// What is to be done next.
#[derive(Debug, PartialEq, Eq)]
pub enum RunAction<T> {
    CreateTasker,
    AddSink(T),
    AddContextSink(T),
    /// Bind the tasker to the resource and the controller of the instance.
    Bind(T),
    /// Ask the tasker of the instance whether it is ready.
    CheckInited,
    PostTask { entry: String, pipeline_override: String },
    Finish(Result<i64, String>),
}

pub enum RunActionView<T> {
    CreateTasker,
    AddSink(T),
    AddContextSink(T),
    Bind(T),
    CheckInited,
    PostTask { entry: Seq<char>, pipeline_override: Seq<char> },
    Finish(Result<i64, Seq<char>>),
}

impl<T> View for RunAction<T> {
    type V = RunActionView<T>;

    open spec fn view(&self) -> RunActionView<T> {
        match self {
            RunAction::CreateTasker => RunActionView::CreateTasker,
            RunAction::AddSink(t) => RunActionView::AddSink(*t),
            RunAction::AddContextSink(t) => RunActionView::AddContextSink(*t),
            RunAction::Bind(t) => RunActionView::Bind(*t),
            RunAction::CheckInited => RunActionView::CheckInited,
            RunAction::PostTask { entry, pipeline_override } => RunActionView::PostTask {
                entry: entry@,
                pipeline_override: pipeline_override@,
            },
            RunAction::Finish(Ok(id)) => RunActionView::Finish(Ok(*id)),
            RunAction::Finish(Err(e)) => RunActionView::Finish(Err(e@)),
        }
    }
}

/// What keeps an instance from running a task, where something does.
pub open spec fn run_obstacle<C, R, T>(s: StateView<C, R, T>, id: Seq<char>) -> Option<Seq<char>> {
    if !s.instances.contains_key(id) {
        Some("Instance not found"@)
    } else if s.instances[id].resource is None {
        Some("Resource not loaded"@)
    } else if s.instances[id].controller is None {
        Some("Controller not connected"@)
    } else {
        None
    }
}

/// One step of a run.
pub open spec fn run_step<C, R, T>(
    s: StateView<C, R, T>,
    id: Seq<char>,
    entry: Seq<char>,
    pipeline_override: Seq<char>,
    event: RunEvent<T>,
) -> (StateView<C, R, T>, RunActionView<T>) {
    match event {
        RunEvent::Begin => (
            s,
            match run_obstacle(s, id) {
                Some(e) => RunActionView::Finish(Err(e)),
                None => if s.instances[id].tasker is None {
                    RunActionView::CreateTasker
                } else {
                    RunActionView::CheckInited
                },
            },
        ),
        RunEvent::Created(Ok(tasker)) => (s, RunActionView::AddSink(tasker)),
        RunEvent::Created(Err(e)) => (s, RunActionView::Finish(Err(e@))),
        RunEvent::SinkAdded(tasker, Ok(())) => (s, RunActionView::AddContextSink(tasker)),
        RunEvent::SinkAdded(_, Err(e)) => (s, RunActionView::Finish(Err(e@))),
        RunEvent::ContextSinkAdded(tasker, Ok(())) => (s, RunActionView::Bind(tasker)),
        RunEvent::ContextSinkAdded(_, Err(e)) => (s, RunActionView::Finish(Err(e@))),
        // The instance gets the tasker once it is bound.
        RunEvent::Bound(tasker, Ok(())) => match run_obstacle(s, id) {
            Some(e) => (s, RunActionView::Finish(Err(e))),
            None => (
                with_instance(s, id, InstanceView { tasker: Some(tasker), ..s.instances[id] }),
                RunActionView::CheckInited,
            ),
        },
        RunEvent::Bound(_, Err(e)) => (s, RunActionView::Finish(Err(e@))),
        RunEvent::Inited(true) => (s, RunActionView::PostTask { entry, pipeline_override }),
        RunEvent::Inited(false) => (s, RunActionView::Finish(Err("Tasker not initialized"@))),
        RunEvent::Posted(Ok(task_id)) => if s.instances.contains_key(id) {
            (
                with_instance(
                    s,
                    id,
                    InstanceView {
                        task_ids: s.instances[id].task_ids.push(task_id),
                        ..s.instances[id]
                    },
                ),
                RunActionView::Finish(Ok(task_id)),
            )
        } else {
            (s, RunActionView::Finish(Err("Instance not found"@)))
        },
        RunEvent::Posted(Err(e)) => (s, RunActionView::Finish(Err(e@))),
    }
}

fn find_obstacle<C, R, T>(state: &MaaState<C, R, T>, id: &String) -> (obstacle: Option<String>)
    requires
        state.wf(),
    ensures
        match obstacle {
            Some(e) => run_obstacle(state@, id@) == Some(e@),
            None => run_obstacle(state@, id@) is None,
        },
{
    match state.instance(id) {
        Some(instance) => if instance.resource.is_none() {
            Some("Resource not loaded".to_string())
        } else if instance.controller.is_none() {
            Some("Controller not connected".to_string())
        } else {
            None
        },
        None => Some("Instance not found".to_string()),
    }
}

/// Takes the run of a task one step further: from what came of the last
/// action to the next one.
pub fn maa_run_task<C, R, T>(
    state: &mut MaaState<C, R, T>,
    request: &TaskRequest,
    event: RunEvent<T>,
) -> (action: RunAction<T>)
    requires
        old(state).wf(),
    ensures
        final(state).wf(),
        (final(state)@, action@) == run_step(
            old(state)@,
            request.instance_id@,
            request.entry@,
            request.pipeline_override@,
            event,
        ),
{
    let ghost before = state@;
    let ghost id = request.instance_id@;
    match event {
        RunEvent::Begin => match find_obstacle(state, &request.instance_id) {
            Some(e) => RunAction::Finish(Err(e)),
            None => if state.tasker(&request.instance_id).is_none() {
                RunAction::CreateTasker
            } else {
                RunAction::CheckInited
            },
        },
        RunEvent::Created(Ok(tasker)) => RunAction::AddSink(tasker),
        RunEvent::Created(Err(e)) => RunAction::Finish(Err(e)),
        RunEvent::SinkAdded(tasker, Ok(())) => RunAction::AddContextSink(tasker),
        RunEvent::SinkAdded(_, Err(e)) => RunAction::Finish(Err(e)),
        RunEvent::ContextSinkAdded(tasker, Ok(())) => RunAction::Bind(tasker),
        RunEvent::ContextSinkAdded(_, Err(e)) => RunAction::Finish(Err(e)),
        RunEvent::Bound(tasker, Ok(())) => match find_obstacle(state, &request.instance_id) {
            Some(e) => RunAction::Finish(Err(e)),
            None => match state.take_instance(&request.instance_id) {
                Some(mut instance) => {
                    instance.tasker = Some(tasker);
                    let ghost view = instance@;
                    state.put_instance(request.instance_id.clone(), instance);
                    assert(state@ =~= with_instance(before, id, view));
                    RunAction::CheckInited
                },
                None => RunAction::Finish(Err("Instance not found".to_string())),
            },
        },
        RunEvent::Bound(_, Err(e)) => RunAction::Finish(Err(e)),
        RunEvent::Inited(inited) => if inited {
            RunAction::PostTask {
                entry: request.entry.clone(),
                pipeline_override: request.pipeline_override.clone(),
            }
        } else {
            RunAction::Finish(Err("Tasker not initialized".to_string()))
        },
        RunEvent::Posted(Ok(task_id)) => match state.take_instance(&request.instance_id) {
            Some(mut instance) => {
                instance.task_ids.push(task_id);
                let ghost view = instance@;
                state.put_instance(request.instance_id.clone(), instance);
                assert(state@ =~= with_instance(before, id, view));
                RunAction::Finish(Ok(task_id))
            },
            None => RunAction::Finish(Err("Instance not found".to_string())),
        },
        RunEvent::Posted(Err(e)) => RunAction::Finish(Err(e)),
    }
}

/// The framework's code of a task that waits.
pub const PENDING_CODE: i32 = 1000;

/// The framework's code of a task that runs.
pub const RUNNING_CODE: i32 = 2000;

/// The framework's code of a task that came through.
pub const SUCCEEDED_CODE: i32 = 3000;

/// `MaaStatus::pending` on the status of a code.
#[verifier::external_body]
fn is_pending(code: i32) -> (pending: bool)
    ensures
        pending == (code == PENDING_CODE),
{
    maa_framework::MaaStatus(code).pending()
}

/// `MaaStatus::running` on the status of a code.
#[verifier::external_body]
fn is_running(code: i32) -> (running: bool)
    ensures
        running == (code == RUNNING_CODE),
{
    maa_framework::MaaStatus(code).running()
}

/// `MaaStatus::succeeded` on the status of a code.
#[verifier::external_body]
fn is_succeeded(code: i32) -> (succeeded: bool)
    ensures
        succeeded == (code == SUCCEEDED_CODE),
{
    maa_framework::MaaStatus(code).succeeded()
}

/// The status that a code stands for; a task that the framework does not
/// know, and every other code, has failed.
pub open spec fn status_of(code: Option<i32>) -> TaskStatus {
    match code {
        Some(c) if c == PENDING_CODE => TaskStatus::Pending,
        Some(c) if c == RUNNING_CODE => TaskStatus::Running,
        Some(c) if c == SUCCEEDED_CODE => TaskStatus::Succeeded,
        _ => TaskStatus::Failed,
    }
}

/// Reads a code of the framework.
pub fn read_status(code: Option<i32>) -> (status: TaskStatus)
    ensures
        status == status_of(code),
{
    match code {
        Some(code) => if is_pending(code) {
            TaskStatus::Pending
        } else if is_running(code) {
            TaskStatus::Running
        } else if is_succeeded(code) {
            TaskStatus::Succeeded
        } else {
            TaskStatus::Failed
        },
        None => TaskStatus::Failed,
    }
}

/// What keeps an instance's tasker from being asked, where something does.
pub open spec fn tasker_obstacle<C, R, T>(s: StateView<C, R, T>, id: Seq<char>) -> Option<
    Seq<char>,
> {
    if !s.instances.contains_key(id) {
        Some("Instance not found"@)
    } else if s.instances[id].tasker is None {
        Some("Tasker not created"@)
    } else {
        None
    }
}

/// The tasker that is to be asked.
pub fn find_tasker<'a, C, R, T>(
    state: &'a MaaState<C, R, T>,
    instance_id: &String,
) -> (result: Result<&'a T, String>)
    requires
        state.wf(),
    ensures
        match result {
            Ok(tasker) => tasker_obstacle(state@, instance_id@) is None
                && state@.instances[instance_id@].tasker == Some(*tasker),
            Err(e) => tasker_obstacle(state@, instance_id@) == Some(e@),
        },
{
    match state.instance(instance_id) {
        Some(instance) => match &instance.tasker {
            Some(tasker) => Ok(tasker),
            None => Err("Tasker not created".to_string()),
        },
        None => Err("Instance not found".to_string()),
    }
}

/// What came of the last action of a question for a task's status.
pub enum StatusEvent {
    /// The request came in.
    Begin,
    /// The code that the instance's tasker has for the task, if it knows it.
    Detail(Result<Option<i32>, String>),
}

/// What a question for a task's status does next.
#[derive(Debug, PartialEq, Eq)]
pub enum StatusAction {
    /// Ask the tasker of the instance for the details of a task with this id.
    AskDetail(i64),
    Finish(Result<TaskStatus, String>),
}

/// One step of a question for a task's status.
pub open spec fn status_step(
    obstacle: Option<Seq<char>>,
    task_id: i64,
    event: StatusEvent,
    action: StatusAction,
) -> bool {
    match (obstacle, event) {
        (Some(message), _) => action matches StatusAction::Finish(Err(e)) && e@ == message,
        (None, StatusEvent::Begin) => action == StatusAction::AskDetail(task_id),
        (None, StatusEvent::Detail(Ok(code))) => action == StatusAction::Finish(
            Ok(status_of(code)),
        ),
        (None, StatusEvent::Detail(Err(message))) => action matches StatusAction::Finish(Err(e))
            && e@ == message@,
    }
}

/// Takes a question for a task's status one step further: from what came of
/// the last action to the next one.
pub fn maa_get_task_status<C, R, T>(
    state: &MaaState<C, R, T>,
    instance_id: &String,
    task_id: i64,
    event: StatusEvent,
) -> (action: StatusAction)
    requires
        state.wf(),
    ensures
        status_step(tasker_obstacle(state@, instance_id@), task_id, event, action),
{
    match find_tasker(state, instance_id) {
        Ok(_) => match event {
            StatusEvent::Begin => StatusAction::AskDetail(task_id),
            StatusEvent::Detail(Ok(code)) => StatusAction::Finish(Ok(read_status(code))),
            StatusEvent::Detail(Err(e)) => StatusAction::Finish(Err(e)),
        },
        Err(e) => StatusAction::Finish(Err(e)),
    }
}

/// A new pipeline for a task that was posted, and the tasker that it is for.
#[derive(Debug, PartialEq, Eq)]
pub struct PipelineOverride<'a, T> {
    pub tasker: &'a T,
    pub task_id: i64,
    pub pipeline_override: String,
}

/// Finds the tasker that is to be given a new pipeline for a task.
pub fn maa_override_pipeline<'a, C, R, T>(
    state: &'a MaaState<C, R, T>,
    instance_id: String,
    task_id: i64,
    pipeline_override: String,
) -> (result: Result<PipelineOverride<'a, T>, String>)
    requires
        state.wf(),
    ensures
        match result {
            Ok(call) => {
                &&& tasker_obstacle(state@, instance_id@) is None
                &&& state@.instances[instance_id@].tasker == Some(*call.tasker)
                &&& call.task_id == task_id
                &&& call.pipeline_override@ == pipeline_override@
            },
            Err(e) => tasker_obstacle(state@, instance_id@) == Some(e@),
        },
{
    match find_tasker(state, &instance_id) {
        Ok(tasker) => Ok(PipelineOverride { tasker, task_id, pipeline_override }),
        Err(e) => Err(e),
    }
}

/// What a question for whether an instance runs a task is answered.
pub open spec fn running_answer<C, R, T>(
    s: StateView<C, R, T>,
    id: Seq<char>,
    running: bool,
) -> Result<bool, Seq<char>> {
    if s.instances.contains_key(id) {
        Ok(s.instances[id].tasker is Some && running)
    } else {
        Err("Instance not found"@)
    }
}

/// Whether an instance runs a task; `running` is what the tasker, where
/// there is one, says of itself.
pub fn maa_is_running<C, R, T>(
    state: &MaaState<C, R, T>,
    instance_id: String,
    running: bool,
) -> (result: Result<bool, String>)
    requires
        state.wf(),
    ensures
        match result {
            Ok(answer) => state@.instances.contains_key(instance_id@) && answer == (
            state@.instances[instance_id@].tasker is Some && running),
            Err(e) => !state@.instances.contains_key(instance_id@) && e@ == "Instance not found"@,
        },
        reply_view(result) == running_answer(state@, instance_id@, running),
{
    match state.instance(&instance_id) {
        Some(instance) => Ok(instance.tasker.is_some() && running),
        None => Err("Instance not found".to_string()),
    }
}

/// How long, in nanoseconds, a stop is given before it is posted again.
pub const STOP_GRACE_NANOS: u64 = 500_000_000;

/// What a request to stop comes to.
#[derive(Debug, Clone, Copy, PartialEq, Eq)]
pub enum StopAction {
    /// Ask the tasker whether it is running, and request again.
    AskRunning,
    /// There is nothing to be done.
    Nothing,
    /// Post a stop to the tasker.
    PostStop,
}

/// How long ago, in nanoseconds, a stop was posted.
pub open spec fn since(started_at: Option<u64>, now: u64) -> int {
    match started_at {
        Some(t) if t <= now => now - t,
        _ => 0,
    }
}

/// What a request to stop does to an instance. While a stop is under way a
/// second one is posted only to a tasker that still runs after the grace.
pub open spec fn stop_step<C, R, T>(
    instance: InstanceView<C, R, T>,
    running: Option<bool>,
    now: u64,
) -> (InstanceView<C, R, T>, StopAction) {
    if instance.stop_in_progress && running is None {
        (instance, StopAction::AskRunning)
    } else if instance.stop_in_progress && running == Some(false) {
        (
            InstanceView { stop_in_progress: false, stop_started_at: None, ..instance },
            StopAction::Nothing,
        )
    } else if instance.stop_in_progress && since(instance.stop_started_at, now)
        < STOP_GRACE_NANOS {
        (instance, StopAction::Nothing)
    } else {
        (
            InstanceView {
                stop_in_progress: true,
                stop_started_at: Some(now),
                task_ids: Seq::empty(),
                ..instance
            },
            StopAction::PostStop,
        )
    }
}

/// The state after a request to stop.
pub open spec fn after_stop<C, R, T>(
    s: StateView<C, R, T>,
    id: Seq<char>,
    running: Option<bool>,
    now: u64,
) -> StateView<C, R, T> {
    if tasker_obstacle(s, id) is None {
        with_instance(s, id, stop_step(s.instances[id], running, now).0)
    } else {
        s
    }
}

/// Requests a stop of what an instance runs. `running` is what the tasker
/// says of itself, once it was asked; `now` is the time of a monotonic clock,
/// in nanoseconds.
pub fn maa_stop_task<C, R, T>(
    state: &mut MaaState<C, R, T>,
    instance_id: &String,
    running: Option<bool>,
    now: u64,
) -> (result: Result<StopAction, String>)
    requires
        old(state).wf(),
    ensures
        final(state).wf(),
        final(state)@ == after_stop(old(state)@, instance_id@, running, now),
        match result {
            Ok(action) => tasker_obstacle(old(state)@, instance_id@) is None && action == stop_step(
                old(state)@.instances[instance_id@],
                running,
                now,
            ).1,
            Err(e) => tasker_obstacle(old(state)@, instance_id@) == Some(e@),
        },
{
    let ghost before = state@;
    match find_tasker(state, instance_id) {
        Ok(_) => {},
        Err(e) => {
            return Err(e);
        },
    }
    match state.take_instance(instance_id) {
        Some(mut instance) => {
            let action = if instance.stop_in_progress {
                match running {
                    None => StopAction::AskRunning,
                    Some(false) => {
                        instance.stop_in_progress = false;
                        instance.stop_started_at = None;
                        StopAction::Nothing
                    },
                    Some(true) => {
                        let elapsed: u64 = match instance.stop_started_at {
                            Some(t) => if t <= now {
                                now - t
                            } else {
                                0
                            },
                            None => 0,
                        };
                        if elapsed < STOP_GRACE_NANOS {
                            StopAction::Nothing
                        } else {
                            StopAction::PostStop
                        }
                    },
                }
            } else {
                StopAction::PostStop
            };
            match action {
                StopAction::PostStop => {
                    instance.stop_in_progress = true;
                    instance.stop_started_at = Some(now);
                    instance.task_ids.clear();
                },
                _ => {},
            }
            let ghost view = instance@;
            state.put_instance(instance_id.clone(), instance);
            assert(view == stop_step(before.instances[instance_id@], running, now).0);
            assert(state@ =~= with_instance(before, instance_id@, view));
            Ok(action)
        },
        None => Err("Instance not found".to_string()),
    }
}

} // verus!
