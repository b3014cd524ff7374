//! What running, asking after and stopping tasks comes to.

use vstd::prelude::*;

use crate::state::{InstanceView, StateView};
use crate::task::{
    after_stop, run_step, running_answer, since, status_of, status_step, stop_step, tasker_obstacle, RunAction, RunEvent,
    StatusAction, StatusEvent, StopAction, TaskStatus,
};

verus! {

/// What a run needs before it begins, in the order it is looked for.
pub proof fn law_runs_need_their_parts<C, R, T>(
    s: StateView<C, R, T>,
    t: StateView<C, R, T>,
    id: Seq<char>,
    entry: Seq<char>,
    pipeline_override: Seq<char>,
    action: RunAction<T>,
)
    requires
        (t, action@) == run_step(s, id, entry, pipeline_override, RunEvent::<T>::Begin),
    ensures
        t == s,
        ({
            let instance = s.instances[id];
            if !s.instances.contains_key(id) {
                action matches RunAction::Finish(Err(e)) && e@ == "Instance not found"@
            } else if instance.resource is None {
                action matches RunAction::Finish(Err(e)) && e@ == "Resource not loaded"@
            } else if instance.controller is None {
                action matches RunAction::Finish(Err(e)) && e@ == "Controller not connected"@
            } else {
                action is CreateTasker <==> instance.tasker is None
            }
        }),
        s.instances.contains_key(id) && s.instances[id].resource is Some
            && s.instances[id].controller is Some && s.instances[id].tasker is Some
            ==> action is CheckInited,
{
}

/// A new tasker gets its sink, then its context sink, then is bound, and it
/// is the same tasker all the way. Nothing is kept until it is bound; then
/// the instance has it, nothing else of the instance changes, and it is asked
/// whether it is ready.
pub proof fn law_new_taskers_are_set_up<C, R, T>(
    s: StateView<C, R, T>,
    t: StateView<C, R, T>,
    id: Seq<char>,
    entry: Seq<char>,
    pipeline_override: Seq<char>,
    tasker: T,
    action: RunAction<T>,
)
    ensures
        (t, action@) == run_step(s, id, entry, pipeline_override, RunEvent::Created(Ok(tasker)))
            ==> t == s && action == RunAction::AddSink(tasker),
        (t, action@) == run_step(
            s,
            id,
            entry,
            pipeline_override,
            RunEvent::SinkAdded(tasker, Ok(())),
        ) ==> t == s && action == RunAction::AddContextSink(tasker),
        (t, action@) == run_step(
            s,
            id,
            entry,
            pipeline_override,
            RunEvent::ContextSinkAdded(tasker, Ok(())),
        ) ==> t == s && action == RunAction::Bind(tasker),
        (t, action@) == run_step(s, id, entry, pipeline_override, RunEvent::Bound(tasker, Ok(())))
            && s.instances.contains_key(id) && s.instances[id].resource is Some
            && s.instances[id].controller is Some ==> {
            let before = s.instances[id];
            let after: InstanceView<C, R, T> = t.instances[id];
            &&& action is CheckInited
            &&& t.instances.contains_key(id)
            &&& after.tasker == Some(tasker)
            &&& after.resource == before.resource
            &&& after.controller == before.controller
            &&& after.controller_config == before.controller_config
            &&& after.task_ids == before.task_ids
            &&& after.stop_in_progress == before.stop_in_progress
            &&& after.stop_started_at == before.stop_started_at
        },
{
}

/// A tasker that was bound for an instance that by then lacks a part, or is
/// gone, is not kept, and a task that was posted for an instance that is gone
/// is not kept either: the run ends and says what is missing.
pub proof fn law_late_runs_need_their_parts<C, R, T>(
    s: StateView<C, R, T>,
    t: StateView<C, R, T>,
    id: Seq<char>,
    entry: Seq<char>,
    pipeline_override: Seq<char>,
    tasker: T,
    task_id: i64,
    event: RunEvent<T>,
    action: RunAction<T>,
)
    requires
        ({
            ||| event == RunEvent::Bound(tasker, Ok(())) && !(s.instances.contains_key(id)
                && s.instances[id].resource is Some && s.instances[id].controller is Some)
            ||| event == RunEvent::<T>::Posted(Ok(task_id)) && !s.instances.contains_key(id)
        }),
        (t, action@) == run_step(s, id, entry, pipeline_override, event),
    ensures
        t == s,
        action matches RunAction::Finish(Err(e)) && e@ == if !s.instances.contains_key(id) {
            "Instance not found"@
        } else if s.instances[id].resource is None {
            "Resource not loaded"@
        } else {
            "Controller not connected"@
        },
{
}

/// A tasker that is ready is given the entry and the pipeline that were asked
/// for, and one that is not is given nothing.
pub proof fn law_ready_taskers_get_the_task<C, R, T>(
    s: StateView<C, R, T>,
    t: StateView<C, R, T>,
    id: Seq<char>,
    entry: Seq<char>,
    pipeline_override: Seq<char>,
    ready: bool,
    action: RunAction<T>,
)
    requires
        (t, action@) == run_step(s, id, entry, pipeline_override, RunEvent::<T>::Inited(ready)),
    ensures
        t == s,
        ready ==> (action matches RunAction::PostTask { entry: e, pipeline_override: p } && e@
            == entry && p@ == pipeline_override),
        !ready ==> (action matches RunAction::Finish(Err(e)) && e@ == "Tasker not initialized"@),
{
}

/// A task that was posted is the answer, and is kept behind the tasks that
/// the instance had; nothing else of the instance changes.
pub proof fn law_posted_tasks_are_kept<C, R, T>(
    s: StateView<C, R, T>,
    t: StateView<C, R, T>,
    id: Seq<char>,
    entry: Seq<char>,
    pipeline_override: Seq<char>,
    task_id: i64,
    action: RunAction<T>,
)
    requires
        s.instances.contains_key(id),
        (t, action@) == run_step(s, id, entry, pipeline_override, RunEvent::<T>::Posted(Ok(task_id))),
    ensures
        action == RunAction::<T>::Finish(Ok(task_id)),
        ({
            let before = s.instances[id];
            let after: InstanceView<C, R, T> = t.instances[id];
            &&& t.instances.contains_key(id)
            &&& after.task_ids.len() == before.task_ids.len() + 1
            &&& after.task_ids.last() == task_id
            &&& after.task_ids.drop_last() == before.task_ids
            &&& after.tasker == before.tasker
            &&& after.resource == before.resource
            &&& after.controller == before.controller
            &&& after.controller_config == before.controller_config
            &&& after.stop_in_progress == before.stop_in_progress
            &&& after.stop_started_at == before.stop_started_at
        }),
{
}

/// Where the framework cannot make, set up or bind a tasker, or post the
/// task, a run ends with the framework's own words, and nothing changes.
pub proof fn law_run_errors_are_handed_on<C, R, T>(
    s: StateView<C, R, T>,
    t: StateView<C, R, T>,
    id: Seq<char>,
    entry: Seq<char>,
    pipeline_override: Seq<char>,
    event: RunEvent<T>,
    error: String,
    action: RunAction<T>,
)
    requires
        ({
            ||| event == RunEvent::<T>::Created(Err(error))
            ||| event matches RunEvent::SinkAdded(_, Err(e)) && e == error
            ||| event matches RunEvent::ContextSinkAdded(_, Err(e)) && e == error
            ||| event matches RunEvent::Bound(_, Err(e)) && e == error
            ||| event == RunEvent::<T>::Posted(Err(error))
        }),
        (t, action@) == run_step(s, id, entry, pipeline_override, event),
    ensures
        t == s,
        action matches RunAction::Finish(Err(e)) && e@ == error@,
{
}

/// What an instance lacks for its tasker to be asked.
pub proof fn law_taskers_are_missed<C, R, T>(s: StateView<C, R, T>, id: Seq<char>)
    ensures
        !s.instances.contains_key(id) ==> tasker_obstacle(s, id) == Some("Instance not found"@),
        s.instances.contains_key(id) && s.instances[id].tasker is None ==> tasker_obstacle(s, id)
            == Some("Tasker not created"@),
        s.instances.contains_key(id) && s.instances[id].tasker is Some ==> tasker_obstacle(s, id)
            is None,
{
}

/// A question for the status of a task asks the tasker for that task.
pub proof fn law_status_asks_for_the_task<C, R, T>(
    s: StateView<C, R, T>,
    id: Seq<char>,
    task_id: i64,
    action: StatusAction,
)
    requires
        s.instances.contains_key(id),
        s.instances[id].tasker is Some,
        status_step(tasker_obstacle(s, id), task_id, StatusEvent::Begin, action),
    ensures
        action == StatusAction::AskDetail(task_id),
{
}

/// The answer to a question for the status of a task goes by the framework's
/// code: 1000 waits, 2000 runs, 3000 came through, and any other code, or
/// none, has failed. The four answers come from these codes alone.
pub proof fn law_status_goes_by_the_code<C, R, T>(
    s: StateView<C, R, T>,
    id: Seq<char>,
    task_id: i64,
    code: Option<i32>,
    action: StatusAction,
)
    requires
        s.instances.contains_key(id),
        s.instances[id].tasker is Some,
        status_step(tasker_obstacle(s, id), task_id, StatusEvent::Detail(Ok(code)), action),
    ensures
        ({
            &&& action matches StatusAction::Finish(Ok(status))
            &&& status == TaskStatus::Pending <==> code == Some(1000i32)
            &&& status == TaskStatus::Running <==> code == Some(2000i32)
            &&& status == TaskStatus::Succeeded <==> code == Some(3000i32)
            &&& status == TaskStatus::Failed <==> code != Some(1000i32) && code != Some(2000i32)
                && code != Some(3000i32)
        }),
{
}

/// The status that a code stands for, and no other code stands for.
pub proof fn law_codes_stand_for_statuses(code: Option<i32>)
    ensures
        status_of(code) == TaskStatus::Pending <==> code == Some(1000i32),
        status_of(code) == TaskStatus::Running <==> code == Some(2000i32),
        status_of(code) == TaskStatus::Succeeded <==> code == Some(3000i32),
{
}

/// A question for a status ends with an error exactly where there is no
/// instance or no tasker, or where the tasker could not answer, and says
/// which.
pub proof fn law_status_errors<C, R, T>(
    s: StateView<C, R, T>,
    id: Seq<char>,
    task_id: i64,
    event: StatusEvent,
    action: StatusAction,
)
    requires
        status_step(tasker_obstacle(s, id), task_id, event, action),
    ensures
        ({
            let found = s.instances.contains_key(id);
            let asked = found && s.instances[id].tasker is Some;
            &&& !found ==> (action matches StatusAction::Finish(Err(e)) && e@
                == "Instance not found"@)
            &&& found && !asked ==> (action matches StatusAction::Finish(Err(e)) && e@
                == "Tasker not created"@)
            &&& asked ==> (event matches StatusEvent::Detail(Err(message)) ==> (action matches
                StatusAction::Finish(Err(e)) && e@ == message@))
            &&& action matches StatusAction::Finish(Err(_)) ==> !asked || (event matches
                StatusEvent::Detail(Err(_)))
        }),
{
}

/// An instance runs a task exactly when it has a tasker and that says so.
/// Without an instance there is no answer.
pub proof fn law_running_instances<C, R, T>(s: StateView<C, R, T>, id: Seq<char>, running: bool)
    ensures
        running_answer(s, id, running) == Ok::<bool, Seq<char>>(true) <==> s.instances.contains_key(
            id,
        ) && s.instances[id].tasker is Some && running,
        running_answer(s, id, running) == Err::<bool, Seq<char>>("Instance not found"@)
            <==> !s.instances.contains_key(id),
        running_answer(s, id, running) is Err <==> !s.instances.contains_key(id),
{
}

/// An instance that gets a stop posted: the stop is under way since now, and
/// no task is kept, whatever tasks there were. Its parts stay.
pub open spec fn gets_stop<C, R, T>(
    before: InstanceView<C, R, T>,
    after: InstanceView<C, R, T>,
    now: u64,
) -> bool {
    &&& after.stop_in_progress
    &&& after.stop_started_at == Some(now)
    &&& after.task_ids.len() == 0
    &&& after.controller == before.controller
    &&& after.controller_config == before.controller_config
    &&& after.resource == before.resource
    &&& after.tasker == before.tasker
}

/// Where no stop is under way, a request posts one, whatever the tasker says
/// and whatever tasks the instance keeps.
pub proof fn law_first_stops_are_posted<C, R, T>(
    instance: InstanceView<C, R, T>,
    running: Option<bool>,
    now: u64,
)
    requires
        !instance.stop_in_progress,
    ensures
        stop_step(instance, running, now).1 == StopAction::PostStop,
        gets_stop(instance, stop_step(instance, running, now).0, now),
{
}

/// Where a stop is under way and the tasker runs half a second or more after
/// it was posted, a request posts it again, whatever tasks the instance keeps.
pub proof fn law_stops_are_posted_again_after_the_grace<C, R, T>(
    instance: InstanceView<C, R, T>,
    posted_at: u64,
    now: u64,
)
    requires
        instance.stop_in_progress,
        instance.stop_started_at == Some(posted_at),
        now - posted_at >= 500_000_000,
    ensures
        stop_step(instance, Some(true), now).1 == StopAction::PostStop,
        gets_stop(instance, stop_step(instance, Some(true), now).0, now),
{
}

/// Where a stop is under way and the tasker runs less than half a second after
/// it was posted, a request does nothing and changes nothing, whatever tasks
/// the instance keeps. A time that is not known, or is still to come, counts
/// as no time.
pub proof fn law_stops_are_not_posted_within_the_grace<C, R, T>(
    instance: InstanceView<C, R, T>,
    now: u64,
)
    requires
        instance.stop_in_progress,
        instance.stop_started_at matches Some(posted_at) ==> now - posted_at < 500_000_000,
    ensures
        stop_step(instance, Some(true), now) == (instance, StopAction::Nothing),
{
}

/// Where a stop is under way and the tasker no longer runs, the stop is over:
/// nothing is posted, and neither the tasks nor the parts change. The next
/// request then posts a stop.
pub proof fn law_stops_end_with_the_tasker<C, R, T>(
    instance: InstanceView<C, R, T>,
    running: Option<bool>,
    now: u64,
    later: u64,
)
    requires
        instance.stop_in_progress,
    ensures
        ({
            let (over, action) = stop_step(instance, Some(false), now);
            &&& action == StopAction::Nothing
            &&& !over.stop_in_progress
            &&& over.stop_started_at is None
            &&& over.task_ids == instance.task_ids
            &&& over.controller == instance.controller
            &&& over.controller_config == instance.controller_config
            &&& over.resource == instance.resource
            &&& over.tasker == instance.tasker
            &&& stop_step(over, running, later).1 == StopAction::PostStop
        }),
{
}

/// Only while a stop is under way has the tasker to be asked, and asking
/// changes nothing.
pub proof fn law_taskers_are_asked_when_stopping<C, R, T>(
    instance: InstanceView<C, R, T>,
    running: Option<bool>,
    now: u64,
)
    ensures
        stop_step(instance, running, now).1 == StopAction::AskRunning <==> instance.stop_in_progress
            && running is None,
        instance.stop_in_progress && running is None ==> stop_step(instance, running, now).0
            == instance,
{
}

/// A task that was run after a stop can be stopped: whatever tasks were run
/// since, half a second after that stop a request posts another.
pub proof fn law_tasks_run_after_a_stop_can_be_stopped<C, R, T>(
    s: StateView<C, R, T>,
    id: Seq<char>,
    entry: Seq<char>,
    pipeline_override: Seq<char>,
    task_id: i64,
    first: u64,
    second: u64,
)
    requires
        s.instances.contains_key(id),
        s.instances[id].tasker is Some,
        !s.instances[id].stop_in_progress,
        second - first >= 500_000_000,
    ensures
        ({
            let stopped = after_stop(s, id, None, first);
            let run = run_step(
                stopped,
                id,
                entry,
                pipeline_override,
                RunEvent::<T>::Posted(Ok(task_id)),
            ).0;
            let again = after_stop(run, id, Some(true), second);
            &&& run.instances[id].task_ids == seq![task_id]
            &&& stop_step(run.instances[id], Some(true), second).1 == StopAction::PostStop
            &&& gets_stop(s.instances[id], again.instances[id], second)
        }),
{
}

/// A request to stop changes the instance as [`stop_step`] says, and nothing
/// where there is no instance or no tasker.
pub proof fn law_stops_need_a_tasker<C, R, T>(
    s: StateView<C, R, T>,
    id: Seq<char>,
    running: Option<bool>,
    now: u64,
)
    ensures
        ({
            let t = after_stop(s, id, running, now);
            let has_tasker = s.instances.contains_key(id) && s.instances[id].tasker is Some;
            &&& !has_tasker ==> t == s
            &&& has_tasker ==> t.instances.contains_key(id) && t.instances[id] == stop_step(
                s.instances[id],
                running,
                now,
            ).0
        }),
{
}

/// The time since a stop was posted: none where it is not known or still to
/// come.
pub proof fn law_time_since_a_stop(posted_at: u64, now: u64)
    ensures
        posted_at <= now ==> since(Some(posted_at), now) == now - posted_at,
        posted_at > now ==> since(Some(posted_at), now) == 0,
        since(None, now) == 0,
{
}

} // verus!
