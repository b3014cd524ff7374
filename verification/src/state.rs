//! The state behind the commands: the instances, and the controllers that
//! they share.
//!
//! Controllers (`C`), resources (`R`) and taskers (`T`) are handles of the
//! automation framework. The state keeps them and never looks inside.

use vstd::prelude::*;

use crate::config::{opt_text, ConfigView, ControllerConfig};
use crate::devices::{
    device_views, window_views, AdbDevice, AdbDeviceView, Win32Window, WindowView,
};
use crate::table::{Key, Table};

verus! {

/// What belongs to one instance.
pub struct InstanceRuntime<C, R, T> {
    pub controller: Option<C>,
    pub controller_config: Option<ControllerConfig>,
    pub resource: Option<R>,
    pub tasker: Option<T>,
    pub task_ids: Vec<i64>,
    pub stop_in_progress: bool,
    /// When the last stop was posted, in nanoseconds of a monotonic clock.
    pub stop_started_at: Option<u64>,
}

#[verifier::ext_equal]
pub struct InstanceView<C, R, T> {
    pub controller: Option<C>,
    pub controller_config: Option<ConfigView>,
    pub resource: Option<R>,
    pub tasker: Option<T>,
    pub task_ids: Seq<i64>,
    pub stop_in_progress: bool,
    pub stop_started_at: Option<u64>,
}

/// What an optional configuration says.
pub open spec fn opt_config(config: Option<ControllerConfig>) -> Option<ConfigView> {
    match config {
        Some(c) => Some(c@),
        None => None,
    }
}

impl<C, R, T> View for InstanceRuntime<C, R, T> {
    type V = InstanceView<C, R, T>;

    open spec fn view(&self) -> InstanceView<C, R, T> {
        InstanceView {
            controller: self.controller,
            controller_config: opt_config(self.controller_config),
            resource: self.resource,
            tasker: self.tasker,
            task_ids: self.task_ids@,
            stop_in_progress: self.stop_in_progress,
            stop_started_at: self.stop_started_at,
        }
    }
}

/// An instance that nothing has happened to yet.
pub open spec fn fresh_instance<C, R, T>() -> InstanceView<C, R, T> {
    InstanceView {
        controller: None,
        controller_config: None,
        resource: None,
        tasker: None,
        task_ids: Seq::empty(),
        stop_in_progress: false,
        stop_started_at: None,
    }
}

impl<C, R, T> Default for InstanceRuntime<C, R, T> {
    fn default() -> (instance: Self)
        ensures
            instance@ == fresh_instance::<C, R, T>(),
    {
        InstanceRuntime {
            controller: None,
            controller_config: None,
            resource: None,
            tasker: None,
            task_ids: Vec::new(),
            stop_in_progress: false,
            stop_started_at: None,
        }
    }
}

/// The state of the application.
pub struct MaaState<C, R, T> {
    pub instances: Table<String, InstanceRuntime<C, R, T>>,
    pub controller_pool: Table<ControllerConfig, C>,
    /// The id that the next reuse of a pooled controller gets.
    pub next_conn_id: i64,
    pub lib_dir: Option<String>,
    pub resource_dir: Option<String>,
    pub cached_adb_devices: Vec<AdbDevice>,
    pub cached_win32_windows: Vec<Win32Window>,
}

#[verifier::ext_equal]
pub struct StateView<C, R, T> {
    pub instances: Map<Seq<char>, InstanceView<C, R, T>>,
    pub controller_pool: Map<ConfigView, C>,
    pub next_conn_id: i64,
    pub lib_dir: Option<Seq<char>>,
    pub resource_dir: Option<Seq<char>>,
    pub cached_adb_devices: Seq<AdbDeviceView>,
    pub cached_win32_windows: Seq<WindowView>,
}

/// What is known of each instance of a map.
pub open spec fn instance_views<C, R, T>(
    instances: Map<Seq<char>, InstanceRuntime<C, R, T>>,
) -> Map<Seq<char>, InstanceView<C, R, T>> {
    instances.map_values(|i: InstanceRuntime<C, R, T>| i@)
}

impl<C, R, T> View for MaaState<C, R, T> {
    type V = StateView<C, R, T>;

    open spec fn view(&self) -> StateView<C, R, T> {
        StateView {
            instances: instance_views(self.instances@),
            controller_pool: self.controller_pool@,
            next_conn_id: self.next_conn_id,
            lib_dir: opt_text(self.lib_dir),
            resource_dir: opt_text(self.resource_dir),
            cached_adb_devices: device_views(self.cached_adb_devices@),
            cached_win32_windows: window_views(self.cached_win32_windows@),
        }
    }
}

/// The state at start: no instance, no controller, nothing found, and the
/// first synthetic connection id still to be given.
pub open spec fn initial_state<C, R, T>() -> StateView<C, R, T> {
    StateView {
        instances: Map::empty(),
        controller_pool: Map::empty(),
        next_conn_id: (-1) as i64,
        lib_dir: None,
        resource_dir: None,
        cached_adb_devices: Seq::empty(),
        cached_win32_windows: Seq::empty(),
    }
}

/// Whether an instance holds a controller of this configuration.
pub open spec fn config_in_use<C, R, T>(
    instances: Map<Seq<char>, InstanceView<C, R, T>>,
    config: ConfigView,
) -> bool {
    exists|id: Seq<char>| #[trigger]
        instances.contains_key(id) && instances[id].controller_config == Some(config)
}

/// The state after an instance let go of the controller of `config`: the
/// pool drops the entry, unless an instance still uses it.
pub open spec fn after_release<C, R, T>(
    s: StateView<C, R, T>,
    config: Option<ConfigView>,
) -> StateView<C, R, T> {
    match config {
        Some(c) if !config_in_use(s.instances, c) => StateView {
            controller_pool: s.controller_pool.remove(c),
            ..s
        },
        _ => s,
    }
}

/// The state with an instance put in place of the one of that id.
pub open spec fn with_instance<C, R, T>(
    s: StateView<C, R, T>,
    id: Seq<char>,
    instance: InstanceView<C, R, T>,
) -> StateView<C, R, T> {
    StateView { instances: s.instances.insert(id, instance), ..s }
}

impl<C, R, T> MaaState<C, R, T> {
    /// The tables are well formed.
    pub open spec fn wf(&self) -> bool {
        self.instances.wf() && self.controller_pool.wf()
    }

    pub fn new() -> (state: Self)
        ensures
            state.wf(),
            state@ == initial_state::<C, R, T>(),
    {
        let state = MaaState {
            instances: Table::new(),
            controller_pool: Table::new(),
            next_conn_id: -1,
            lib_dir: None,
            resource_dir: None,
            cached_adb_devices: Vec::new(),
            cached_win32_windows: Vec::new(),
        };
        assert(state@ =~= initial_state::<C, R, T>());
        state
    }

    /// The instance of an id.
    pub fn instance(&self, id: &String) -> (instance: Option<&InstanceRuntime<C, R, T>>)
        requires
            self.wf(),
        ensures
            match instance {
                Some(i) => self@.instances.contains_key(id@) && i@ == self@.instances[id@],
                None => !self@.instances.contains_key(id@),
            },
    {
        self.instances.get(id)
    }

    /// The controller of an instance.
    pub fn controller(&self, id: &String) -> (controller: Option<&C>)
        requires
            self.wf(),
        ensures
            match controller {
                Some(c) => self@.instances.contains_key(id@) && self@.instances[id@].controller
                    == Some(*c),
                None => self@.instances.contains_key(id@) ==> self@.instances[id@].controller
                    is None,
            },
    {
        match self.instance(id) {
            Some(instance) => instance.controller.as_ref(),
            None => None,
        }
    }

    /// The resource of an instance.
    pub fn resource(&self, id: &String) -> (resource: Option<&R>)
        requires
            self.wf(),
        ensures
            match resource {
                Some(r) => self@.instances.contains_key(id@) && self@.instances[id@].resource
                    == Some(*r),
                None => self@.instances.contains_key(id@) ==> self@.instances[id@].resource is None,
            },
    {
        match self.instance(id) {
            Some(instance) => instance.resource.as_ref(),
            None => None,
        }
    }

    /// The tasker of an instance.
    pub fn tasker(&self, id: &String) -> (tasker: Option<&T>)
        requires
            self.wf(),
        ensures
            match tasker {
                Some(t) => self@.instances.contains_key(id@) && self@.instances[id@].tasker
                    == Some(*t),
                None => self@.instances.contains_key(id@) ==> self@.instances[id@].tasker is None,
            },
    {
        match self.instance(id) {
            Some(instance) => instance.tasker.as_ref(),
            None => None,
        }
    }

    /// The controller that is pooled under a configuration.
    pub fn pooled_controller(&self, config: &ControllerConfig) -> (controller: Option<&C>)
        requires
            self.wf(),
        ensures
            match controller {
                Some(c) => self@.controller_pool.contains_key(config@) && *c
                    == self@.controller_pool[config@],
                None => !self@.controller_pool.contains_key(config@),
            },
    {
        self.controller_pool.get(config)
    }

    pub(crate) fn take_instance(&mut self, id: &String) -> (instance: Option<
        InstanceRuntime<C, R, T>,
    >)
        requires
            old(self).wf(),
        ensures
            final(self).wf(),
            match instance {
                Some(i) => {
                    &&& old(self)@.instances.contains_key(id@)
                    &&& i@ == old(self)@.instances[id@]
                    &&& final(self)@ == (StateView {
                        instances: old(self)@.instances.remove(id@),
                        ..old(self)@
                    })
                },
                None => !old(self)@.instances.contains_key(id@) && final(self)@ == old(self)@,
            },
    {
        let ghost before = self@;
        let instance = self.instances.remove(id);
        assert(self@.instances =~= before.instances.remove(id@));
        assert(instance is None ==> self@.instances =~= before.instances);
        instance
    }

    pub(crate) fn put_instance(&mut self, id: String, instance: InstanceRuntime<C, R, T>)
        requires
            old(self).wf(),
        ensures
            final(self).wf(),
            final(self)@ == with_instance(old(self)@, id@, instance@),
    {
        let ghost before = self@;
        let ghost key = id@;
        let ghost value = instance@;
        self.instances.insert(id, instance);
        assert(self@.instances =~= before.instances.insert(key, value));
    }

    /// Whether an instance holds a controller of this configuration.
    pub fn config_in_use(&self, config: &ControllerConfig) -> (used: bool)
        requires
            self.wf(),
        ensures
            used == config_in_use(self@.instances, config@),
    {
        let mut i: usize = 0;
        while i < self.instances.len()
            invariant
                self.wf(),
                i <= self.instances.count(),
                forall|j: int|
                    0 <= j < i ==> self@.instances[#[trigger] self.instances.key_at(
                        j,
                    )].controller_config != Some(config@),
            decreases self.instances.count() - i,
        {
            let instance = self.instances.value_at(i);
            assert(self@.instances.contains_key(self.instances.key_at(i as int)));
            assert(instance@ == self@.instances[self.instances.key_at(i as int)]);
            match &instance.controller_config {
                Some(used) => {
                    if used.same(config) {
                        return true;
                    }
                },
                None => {},
            }
            i = i + 1;
        }
        proof {
            assert forall|id: Seq<char>| #[trigger]
                self@.instances.contains_key(id) implies self@.instances[id].controller_config
                != Some(config@) by {
                self.instances.lemma_walk_is_complete(id);
            }
        }
        false
    }

    /// Drops the pool's entry for a configuration that an instance let go
    /// of, unless an instance still uses it.
    pub(crate) fn release_config(&mut self, config: Option<ControllerConfig>)
        requires
            old(self).wf(),
        ensures
            final(self).wf(),
            final(self)@ == after_release(old(self)@, opt_config(config)),
    {
        match config {
            Some(config) => {
                if !self.config_in_use(&config) {
                    self.controller_pool.remove(&config);
                }
            },
            None => {},
        }
    }
}

/// The synthetic connection id after this one.
pub open spec fn conn_id_after(id: i64) -> i64 {
    if id == i64::MIN {
        i64::MAX
    } else {
        (id - 1) as i64
    }
}

/// Gives out the next id for a connection that is served from the pool.
/// These ids count down from -1, apart from the framework's own, which are
/// positive.
pub fn next_synthetic_conn_id(counter: &mut i64) -> (id: i64)
    ensures
        id == *old(counter),
        *final(counter) == conn_id_after(*old(counter)),
{
    let id: i64 = *counter;
    *counter = id.wrapping_sub(1);
    id
}

/// The state after an instance got a controller: its tasker, bound to the
/// controller it had, is gone, and the pool lets go of that controller's
/// entry where nothing uses it any more.
pub open spec fn after_update<C, R, T>(
    s: StateView<C, R, T>,
    id: Seq<char>,
    controller: C,
    config: ConfigView,
) -> StateView<C, R, T> {
    if s.instances.contains_key(id) {
        let updated = with_instance(
            s,
            id,
            InstanceView {
                controller: Some(controller),
                controller_config: Some(config),
                tasker: None,
                ..s.instances[id]
            },
        );
        after_release(updated, s.instances[id].controller_config)
    } else {
        s
    }
}

/// Gives an instance a controller, and cleans the pool of the entry of the
/// one it had, where no instance uses that any more.
pub fn update_instance_controller<C, R, T>(
    state: &mut MaaState<C, R, T>,
    instance_id: &String,
    controller: C,
    new_config: ControllerConfig,
) -> (result: Result<(), String>)
    requires
        old(state).wf(),
    ensures
        final(state).wf(),
        final(state)@ == after_update(old(state)@, instance_id@, controller, new_config@),
        match result {
            Ok(()) => old(state)@.instances.contains_key(instance_id@),
            Err(e) => !old(state)@.instances.contains_key(instance_id@) && e@
                == "Instance not found"@,
        },
{
    let ghost before = state@;
    match state.take_instance(instance_id) {
        Some(instance) => {
            let InstanceRuntime {
                controller: _,
                controller_config,
                resource,
                tasker: _,
                task_ids,
                stop_in_progress,
                stop_started_at,
            } = instance;
            let updated = InstanceRuntime {
                controller: Some(controller),
                controller_config: Some(new_config),
                resource,
                tasker: None,
                task_ids,
                stop_in_progress,
                stop_started_at,
            };
            let ghost view = updated@;
            state.put_instance(instance_id.clone(), updated);
            assert(state@ =~= with_instance(before, instance_id@, view));
            state.release_config(controller_config);
            Ok(())
        },
        None => Err("Instance not found".to_string()),
    }
}

/// The state after an instance was made.
pub open spec fn after_create<C, R, T>(s: StateView<C, R, T>, id: Seq<char>) -> StateView<
    C,
    R,
    T,
> {
    if s.instances.contains_key(id) {
        s
    } else {
        with_instance(s, id, fresh_instance())
    }
}

/// Makes an instance. One that exists stays as it is.
pub fn maa_create_instance<C, R, T>(
    state: &mut MaaState<C, R, T>,
    instance_id: String,
) -> (result: Result<(), String>)
    requires
        old(state).wf(),
    ensures
        final(state).wf(),
        final(state)@ == after_create(old(state)@, instance_id@),
        result is Ok,
{
    if !state.instances.contains_key(&instance_id) {
        state.put_instance(instance_id, InstanceRuntime::default());
    }
    Ok(())
}

/// The state after an instance was taken away: the pool lets go of its
/// controller's entry, where no other instance uses it.
pub open spec fn after_destroy<C, R, T>(s: StateView<C, R, T>, id: Seq<char>) -> StateView<
    C,
    R,
    T,
> {
    if s.instances.contains_key(id) {
        after_release(
            StateView { instances: s.instances.remove(id), ..s },
            s.instances[id].controller_config,
        )
    } else {
        s
    }
}

/// Takes an instance away. Where there is none, nothing happens.
pub fn maa_destroy_instance<C, R, T>(
    state: &mut MaaState<C, R, T>,
    instance_id: String,
) -> (result: Result<(), String>)
    requires
        old(state).wf(),
    ensures
        final(state).wf(),
        final(state)@ == after_destroy(old(state)@, instance_id@),
        result is Ok,
{
    match state.take_instance(&instance_id) {
        Some(instance) => {
            state.release_config(instance.controller_config);
        },
        None => {},
    }
    Ok(())
}

} // verus!
