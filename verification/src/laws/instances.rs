//! What making, changing and destroying an instance comes to.

use vstd::prelude::*;

use crate::config::ConfigView;
use crate::laws::connecting::nobody_has;
use crate::resource::{after_destroy_resource, load_step, LoadEvent, LoadView};
use crate::state::{
    after_create, after_destroy, after_update, initial_state, InstanceRuntime, InstanceView,
    MaaState, StateView,
};
use crate::task::{after_stop, run_step, RunEvent};

verus! {

/// At the start there is nothing, and the first synthetic id is -1.
pub proof fn law_start<C, R, T>(id: Seq<char>, config: ConfigView)
    ensures
        ({
            let s = initial_state::<C, R, T>();
            &&& !s.instances.contains_key(id)
            &&& !s.controller_pool.contains_key(config)
            &&& s.next_conn_id == -1
            &&& s.lib_dir is None
            &&& s.resource_dir is None
            &&& s.cached_adb_devices.len() == 0
            &&& s.cached_win32_windows.len() == 0
        }),
{
}

/// Whether all of a state but its instances is as in another.
pub open spec fn same_rest<C, R, T>(s: StateView<C, R, T>, t: StateView<C, R, T>) -> bool {
    &&& t.controller_pool == s.controller_pool
    &&& t.next_conn_id == s.next_conn_id
    &&& t.lib_dir == s.lib_dir
    &&& t.resource_dir == s.resource_dir
    &&& t.cached_adb_devices == s.cached_adb_devices
    &&& t.cached_win32_windows == s.cached_win32_windows
}

/// An instance that is made has no part, no task and no stop; one that was
/// there is as it was. Nothing but the instances changes.
pub proof fn law_made_instances_are_bare<C, R, T>(s: StateView<C, R, T>, id: Seq<char>)
    ensures
        ({
            let t = after_create(s, id);
            let made = t.instances[id];
            &&& t.instances.contains_key(id)
            &&& s.instances.contains_key(id) ==> made == s.instances[id]
            &&& !s.instances.contains_key(id) ==> {
                &&& made.controller is None
                &&& made.controller_config is None
                &&& made.resource is None
                &&& made.tasker is None
                &&& made.task_ids.len() == 0
                &&& !made.stop_in_progress
                &&& made.stop_started_at is None
            }
            &&& same_rest(s, t)
        }),
{
}

/// A destroyed instance is gone, and with it the pool's entry of its
/// configuration, exactly when nobody else has that; every other entry stays,
/// and so does everything else. Without such an instance nothing changes.
pub proof fn law_destroyed_instances_are_gone<C, R, T>(
    s: StateView<C, R, T>,
    id: Seq<char>,
    config: ConfigView,
)
    ensures
        ({
            let t = after_destroy(s, id);
            let released = s.instances.contains_key(id) && s.instances[id].controller_config
                == Some(config) && nobody_has(t, config);
            &&& !t.instances.contains_key(id)
            &&& !s.instances.contains_key(id) ==> t == s
            &&& released ==> !t.controller_pool.contains_key(config)
            &&& !released ==> t.controller_pool.contains_key(config)
                == s.controller_pool.contains_key(config)
            &&& t.controller_pool.contains_key(config) ==> t.controller_pool[config]
                == s.controller_pool[config]
            &&& t.next_conn_id == s.next_conn_id
            &&& t.lib_dir == s.lib_dir
            &&& t.resource_dir == s.resource_dir
            &&& t.cached_adb_devices == s.cached_adb_devices
            &&& t.cached_win32_windows == s.cached_win32_windows
        }),
{
}

/// An instance that gets a controller has it, under its configuration, and
/// has no tasker; what else it has stays. The pool's entry of the
/// configuration that it had goes, exactly when nobody has that any more;
/// every other entry stays. Without such an instance nothing changes.
pub proof fn law_updated_instances<C, R, T>(
    s: StateView<C, R, T>,
    id: Seq<char>,
    controller: C,
    config: ConfigView,
    entry: ConfigView,
)
    ensures
        ({
            let t = after_update(s, id, controller, config);
            let before = s.instances[id];
            let after = t.instances[id];
            let released = s.instances.contains_key(id) && before.controller_config == Some(entry)
                && nobody_has(t, entry);
            &&& !s.instances.contains_key(id) ==> t == s
            &&& s.instances.contains_key(id) ==> {
                &&& t.instances.contains_key(id)
                &&& after.controller == Some(controller)
                &&& after.controller_config == Some(config)
                &&& after.tasker is None
                &&& after.resource == before.resource
                &&& after.task_ids == before.task_ids
                &&& after.stop_in_progress == before.stop_in_progress
                &&& after.stop_started_at == before.stop_started_at
            }
            &&& released ==> !t.controller_pool.contains_key(entry)
            &&& !released ==> t.controller_pool.contains_key(entry)
                == s.controller_pool.contains_key(entry)
            &&& t.controller_pool.contains_key(entry) ==> t.controller_pool[entry]
                == s.controller_pool[entry]
            &&& t.next_conn_id == s.next_conn_id
            &&& t.lib_dir == s.lib_dir
            &&& t.resource_dir == s.resource_dir
            &&& t.cached_adb_devices == s.cached_adb_devices
            &&& t.cached_win32_windows == s.cached_win32_windows
        }),
{
}

/// A load, the destruction of a resource, a run and a stop change nothing but
/// an instance.
pub proof fn law_work_changes_instances_only<C, R, T>(
    s: StateView<C, R, T>,
    id: Seq<char>,
    load: LoadView,
    load_event: LoadEvent<R>,
    entry: Seq<char>,
    pipeline_override: Seq<char>,
    run_event: RunEvent<T>,
    running: Option<bool>,
    now: u64,
)
    ensures
        same_rest(s, load_step(s, load, id, load_event).0),
        same_rest(s, after_destroy_resource(s, id)),
        same_rest(s, run_step(s, id, entry, pipeline_override, run_event).0),
        same_rest(s, after_stop(s, id, running, now)),
{
}

/// What is said of a state is what it holds.
pub proof fn law_states_say_what_they_hold<C, R, T>(state: MaaState<C, R, T>, id: Seq<char>)
    ensures
        state@.instances.contains_key(id) == state.instances@.contains_key(id),
        state@.instances.contains_key(id) ==> state@.instances[id] == state.instances@[id]@,
        state@.controller_pool == state.controller_pool@,
        state@.next_conn_id == state.next_conn_id,
        state@.lib_dir is Some == state.lib_dir is Some,
        state.lib_dir matches Some(dir) ==> state@.lib_dir == Some(dir@),
        state@.resource_dir is Some == state.resource_dir is Some,
        state.resource_dir matches Some(dir) ==> state@.resource_dir == Some(dir@),
        state@.cached_adb_devices.len() == state.cached_adb_devices@.len(),
        state@.cached_win32_windows.len() == state.cached_win32_windows@.len(),
        forall|i: int|
            0 <= i < state.cached_adb_devices@.len() ==> #[trigger] state@.cached_adb_devices[i]
                == state.cached_adb_devices@[i]@,
        forall|i: int|
            0 <= i < state.cached_win32_windows@.len() ==> #[trigger] state@.cached_win32_windows[i]
                == state.cached_win32_windows@[i]@,
{
}

/// What is said of an instance is what it holds.
pub proof fn law_instances_say_what_they_hold<C, R, T>(instance: InstanceRuntime<C, R, T>)
    ensures
        instance@.controller == instance.controller,
        instance@.controller_config is Some == instance.controller_config is Some,
        instance.controller_config matches Some(config) ==> instance@.controller_config == Some(
            config@,
        ),
        instance@.resource == instance.resource,
        instance@.tasker == instance.tasker,
        instance@.task_ids == instance.task_ids@,
        instance@.stop_in_progress == instance.stop_in_progress,
        instance@.stop_started_at == instance.stop_started_at,
{
}

/// An instance whose resource is destroyed has none, and no tasker; what else
/// it has stays. Without such an instance nothing changes.
pub proof fn law_destroyed_resources_are_gone<C, R, T>(s: StateView<C, R, T>, id: Seq<char>)
    ensures
        ({
            let t = after_destroy_resource(s, id);
            let before = s.instances[id];
            let after: InstanceView<C, R, T> = t.instances[id];
            &&& !s.instances.contains_key(id) ==> t == s
            &&& s.instances.contains_key(id) ==> {
                &&& t.instances.contains_key(id)
                &&& after.resource is None
                &&& after.tasker is None
                &&& after.controller == before.controller
                &&& after.controller_config == before.controller_config
                &&& after.task_ids == before.task_ids
                &&& after.stop_in_progress == before.stop_in_progress
                &&& after.stop_started_at == before.stop_started_at
            }
        }),
{
}

} // verus!
