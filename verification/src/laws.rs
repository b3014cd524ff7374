//! What holds of the commands together, and, in the modules below, what each
//! of them comes to in terms of what was asked.

use vstd::prelude::*;

use crate::config::ConfigView;
use crate::connect::{
    connect_end, connect_posted, connect_reused, connect_step, planned, reuse_events,
    ConnectActionView, ConnectEvent,
};
use crate::devices::{keeps_window, kept_windows, WindowView};
use crate::library::{
    check_step, init_step, is_location, is_no_version, library_name, CheckAction, CheckEvent, InitAction,
    InitEvent, Platform,
};
use crate::resource::{
    after_destroy_resource, bundle_replied, load_step, new_load, next_bundle, LoadActionView,
    LoadEvent, LoadView,
};
use crate::screen::{base64_char, base64_text, image_url};
use crate::state::{
    after_create, after_destroy, after_update, config_in_use, conn_id_after, fresh_instance,
    initial_state, InstanceView, StateView,
};
use crate::task::{
    after_stop, run_step, stop_step, RunActionView, RunEvent, StopAction, STOP_GRACE_NANOS,
};
use crate::text::{file_path, is_file_name, is_path_in, is_plain_dir, without_leading};
use crate::version::{is_compatible, is_version, lemma_minimum, version_at_least};

pub mod connecting;
pub mod images;
pub mod instances;
pub mod loading;
pub mod numbers;
pub mod resources;
pub mod tasks;
pub mod versions;
pub mod windows;

verus! {

/// Two states that differ in nothing but the instance of an id, as far as
/// instances go.
pub open spec fn same_other_instances<C, R, T>(
    s: StateView<C, R, T>,
    t: StateView<C, R, T>,
    id: Seq<char>,
) -> bool {
    forall|other: Seq<char>|
        #![trigger t.instances.contains_key(other)]
        #![trigger t.instances[other]]
        other != id ==> {
            &&& t.instances.contains_key(other) == s.instances.contains_key(other)
            &&& s.instances.contains_key(other) ==> t.instances[other] == s.instances[other]
        }
}

/// A command on one instance leaves every other instance as it was.
pub proof fn law_instances_are_apart<C, R, T>(
    s: StateView<C, R, T>,
    id: Seq<char>,
    controller: C,
    config: ConfigView,
    connect_event: ConnectEvent<C>,
    load: LoadView,
    load_event: LoadEvent<R>,
    entry: Seq<char>,
    pipeline_override: Seq<char>,
    run_event: RunEvent<T>,
    running: Option<bool>,
    now: u64,
)
    ensures
        same_other_instances(s, after_create(s, id), id),
        same_other_instances(s, after_destroy(s, id), id),
        same_other_instances(s, after_update(s, id, controller, config), id),
        same_other_instances(s, connect_step(s, id, config, connect_event).0, id),
        same_other_instances(s, load_step(s, load, id, load_event).0, id),
        same_other_instances(s, after_destroy_resource(s, id), id),
        same_other_instances(s, run_step(s, id, entry, pipeline_override, run_event).0, id),
        same_other_instances(s, after_stop(s, id, running, now), id),
{
}

/// Making an instance twice is making it once; one that was there is kept.
pub proof fn law_create_is_idempotent<C, R, T>(s: StateView<C, R, T>, id: Seq<char>)
    ensures
        after_create(after_create(s, id), id) == after_create(s, id),
        s.instances.contains_key(id) ==> after_create(s, id) == s,
        after_create(s, id).instances.contains_key(id),
{
}

/// An instance that was made and destroyed leaves no trace, and one that is
/// made after the old one was destroyed is fresh.
pub proof fn law_destroy_undoes_create<C, R, T>(s: StateView<C, R, T>, id: Seq<char>)
    ensures
        !s.instances.contains_key(id) ==> after_destroy(after_create(s, id), id) == s,
        after_create(after_destroy(s, id), id).instances[id] == fresh_instance::<C, R, T>(),
{
    if !s.instances.contains_key(id) {
        assert(after_destroy(after_create(s, id), id) =~= s);
    }
}

/// Destroying an instance twice is destroying it once.
pub proof fn law_destroy_is_idempotent<C, R, T>(s: StateView<C, R, T>, id: Seq<char>)
    ensures
        after_destroy(after_destroy(s, id), id) == after_destroy(s, id),
        !after_destroy(s, id).instances.contains_key(id),
{
}

/// The synthetic connection id that is given out after `n` others.
pub open spec fn nth_conn_id(n: nat) -> i64
    decreases n,
{
    if n == 0 {
        initial_state::<(), (), ()>().next_conn_id
    } else {
        conn_id_after(nth_conn_id((n - 1) as nat))
    }
}

/// The first 2^63 synthetic connection ids are negative, unlike the ids of
/// the framework.
pub proof fn law_conn_ids_are_negative(n: nat)
    requires
        n <= i64::MAX,
    ensures
        nth_conn_id(n) == -1 - n,
        nth_conn_id(n) < 0,
    decreases n,
{
    if n > 0 {
        law_conn_ids_are_negative((n - 1) as nat);
    }
}

/// No two of the first 2^63 synthetic connection ids are the same.
pub proof fn law_conn_ids_are_distinct(m: nat, n: nat)
    requires
        m < n <= i64::MAX,
    ensures
        nth_conn_id(m) != nth_conn_id(n),
{
    law_conn_ids_are_negative(m);
    law_conn_ids_are_negative(n);
}

/// A connection is answered with a negative id exactly when its controller
/// was reused, as long as the framework's own ids are positive and fewer
/// than 2^63 controllers were reused before. The next reuse gets the next id.
pub proof fn law_negative_ids_tell_reuse<C, R, T>(
    s: StateView<C, R, T>,
    id: Seq<char>,
    config: ConfigView,
    event: ConnectEvent<C>,
    n: nat,
)
    requires
        n <= i64::MAX,
        s.next_conn_id == nth_conn_id(n),
        event matches ConnectEvent::Posted { reply: Ok(conn_id), .. } ==> conn_id > 0,
    ensures
        ({
            let (t, action) = connect_step(s, id, config, event);
            let reused = event matches ConnectEvent::PoolChecked(Some(_));
            &&& action matches ConnectActionView::Finish { result: Ok(conn_id), .. } ==> (conn_id
                < 0 <==> reused)
            &&& t.next_conn_id == nth_conn_id(
                if reused {
                    n + 1
                } else {
                    n
                },
            )
        }),
{
    law_conn_ids_are_negative(n);
}

/// Whether the pool has the same entry, or none, under a configuration.
pub open spec fn same_pooled<C, R, T>(
    s: StateView<C, R, T>,
    t: StateView<C, R, T>,
    config: ConfigView,
) -> bool {
    &&& t.controller_pool.contains_key(config) == s.controller_pool.contains_key(config)
    &&& s.controller_pool.contains_key(config) ==> t.controller_pool[config]
        == s.controller_pool[config]
}

/// Giving an instance another controller, or destroying it, takes no entry
/// out of the pool that an instance still uses.
pub proof fn law_entries_in_use_are_kept<C, R, T>(
    s: StateView<C, R, T>,
    id: Seq<char>,
    controller: C,
    config: ConfigView,
    used: ConfigView,
)
    ensures
        config_in_use(after_update(s, id, controller, config).instances, used) ==> same_pooled(
            s,
            after_update(s, id, controller, config),
            used,
        ),
        config_in_use(after_destroy(s, id).instances, used) ==> same_pooled(
            s,
            after_destroy(s, id),
            used,
        ),
{
}

/// Giving an instance another controller, or destroying it, takes out of the
/// pool the entry of the controller that it had, where no instance uses it
/// any more, and no other entry.
pub proof fn law_only_unused_entries_go<C, R, T>(
    s: StateView<C, R, T>,
    id: Seq<char>,
    controller: C,
    config: ConfigView,
    other: ConfigView,
)
    requires
        s.instances.contains_key(id),
    ensures
        s.instances[id].controller_config == Some(other) && !config_in_use(
            after_update(s, id, controller, config).instances,
            other,
        ) ==> !after_update(s, id, controller, config).controller_pool.contains_key(other),
        s.instances[id].controller_config != Some(other) ==> same_pooled(
            s,
            after_update(s, id, controller, config),
            other,
        ),
        s.instances[id].controller_config == Some(other) && !config_in_use(
            after_destroy(s, id).instances,
            other,
        ) ==> !after_destroy(s, id).controller_pool.contains_key(other),
        s.instances[id].controller_config != Some(other) ==> same_pooled(
            s,
            after_destroy(s, id),
            other,
        ),
{
}

/// Every controller of the pool is used by an instance.
pub open spec fn pool_is_used<C, R, T>(s: StateView<C, R, T>) -> bool {
    forall|config: ConfigView| #[trigger]
        s.controller_pool.contains_key(config) ==> config_in_use(s.instances, config)
}

/// A configuration that an instance other than `id` uses stays in use.
proof fn lemma_use_by_others<C, R, T>(
    s: StateView<C, R, T>,
    t: StateView<C, R, T>,
    id: Seq<char>,
    config: ConfigView,
)
    requires
        same_other_instances(s, t, id),
        config_in_use(s.instances, config),
        !(s.instances.contains_key(id) && s.instances[id].controller_config == Some(config)),
    ensures
        config_in_use(t.instances, config),
{
    let user = choose|user: Seq<char>| #[trigger]
        s.instances.contains_key(user) && s.instances[user].controller_config == Some(config);
    assert(t.instances.contains_key(user) && t.instances[user].controller_config == Some(config));
}

proof fn lemma_update_keeps_pool_used<C, R, T>(
    s: StateView<C, R, T>,
    id: Seq<char>,
    controller: C,
    config: ConfigView,
)
    requires
        s.instances.contains_key(id),
        forall|c: ConfigView| #[trigger]
            s.controller_pool.contains_key(c) ==> c == config || config_in_use(s.instances, c),
    ensures
        pool_is_used(after_update(s, id, controller, config)),
{
    let t = after_update(s, id, controller, config);
    assert forall|c: ConfigView| #[trigger] t.controller_pool.contains_key(c) implies config_in_use(
        t.instances,
        c,
    ) by {
        assert(s.controller_pool.contains_key(c));
        assert(t.instances.contains_key(id));
        if c != config && s.instances[id].controller_config != Some(c) {
            lemma_use_by_others(s, t, id, c);
        }
    }
}

/// Neither the making or the destruction of an instance nor a step of a
/// connection leaves a controller in the pool that nothing uses, where there
/// was none, and there is none at the start. The exception is a connection
/// that was posted for an instance that is gone by then.
pub proof fn law_pool_stays_used<C, R, T>(
    s: StateView<C, R, T>,
    id: Seq<char>,
    config: ConfigView,
    event: ConnectEvent<C>,
)
    requires
        pool_is_used(s),
        event matches ConnectEvent::Posted { reply: Ok(_), .. } ==> s.instances.contains_key(id),
    ensures
        pool_is_used(initial_state::<C, R, T>()),
        pool_is_used(after_create(s, id)),
        pool_is_used(after_destroy(s, id)),
        pool_is_used(connect_step(s, id, config, event).0),
{
    let created = after_create(s, id);
    assert forall|c: ConfigView| #[trigger]
        created.controller_pool.contains_key(c) implies config_in_use(created.instances, c) by {
        assert(s.controller_pool.contains_key(c));
        let user = choose|user: Seq<char>| #[trigger]
            s.instances.contains_key(user) && s.instances[user].controller_config == Some(c);
        assert(created.instances.contains_key(user));
    }
    let destroyed = after_destroy(s, id);
    assert forall|c: ConfigView| #[trigger]
        destroyed.controller_pool.contains_key(c) implies config_in_use(destroyed.instances, c) by {
        assert(s.controller_pool.contains_key(c));
        if s.instances.contains_key(id) && s.instances[id].controller_config != Some(c) {
            lemma_use_by_others(s, destroyed, id, c);
        }
    }
    match event {
        ConnectEvent::PoolChecked(Some(controller)) => {
            let t = StateView { next_conn_id: conn_id_after(s.next_conn_id), ..s };
            if s.instances.contains_key(id) {
                lemma_update_keeps_pool_used(t, id, controller, config);
            }
        },
        ConnectEvent::Posted { controller, pooled, reply: Ok(_) } => {
            let t = StateView { controller_pool: s.controller_pool.insert(config, pooled), ..s };
            lemma_update_keeps_pool_used(t, id, controller, config);
        },
        _ => {},
    }
}

/// A load, the destruction of a resource, a run and a stop leave the pool as
/// it is, and every controller of it in use.
pub proof fn law_work_leaves_the_pool<C, R, T>(
    s: StateView<C, R, T>,
    id: Seq<char>,
    load: LoadView,
    load_event: LoadEvent<R>,
    entry: Seq<char>,
    pipeline_override: Seq<char>,
    run_event: RunEvent<T>,
    running: Option<bool>,
    now: u64,
)
    requires
        pool_is_used(s),
    ensures
        ({
            let loaded = load_step(s, load, id, load_event).0;
            loaded.controller_pool == s.controller_pool && pool_is_used(loaded)
        }),
        ({
            let destroyed = after_destroy_resource(s, id);
            destroyed.controller_pool == s.controller_pool && pool_is_used(destroyed)
        }),
        ({
            let run = run_step(s, id, entry, pipeline_override, run_event).0;
            run.controller_pool == s.controller_pool && pool_is_used(run)
        }),
        ({
            let stopped = after_stop(s, id, running, now);
            stopped.controller_pool == s.controller_pool && pool_is_used(stopped)
        }),
{
    lemma_same_use(s, load_step(s, load, id, load_event).0);
    lemma_same_use(s, after_destroy_resource(s, id));
    lemma_same_use(s, run_step(s, id, entry, pipeline_override, run_event).0);
    lemma_same_use(s, after_stop(s, id, running, now));
}

proof fn lemma_same_use<C, R, T>(s: StateView<C, R, T>, t: StateView<C, R, T>)
    requires
        pool_is_used(s),
        t.controller_pool == s.controller_pool,
        forall|id: Seq<char>| #[trigger]
            s.instances.contains_key(id) ==> t.instances.contains_key(id)
                && t.instances[id].controller_config == s.instances[id].controller_config,
    ensures
        pool_is_used(t),
{
    assert forall|config: ConfigView| #[trigger]
        t.controller_pool.contains_key(config) implies config_in_use(t.instances, config) by {
        assert(config_in_use(s.instances, config));
        let user = choose|user: Seq<char>| #[trigger]
            s.instances.contains_key(user) && s.instances[user].controller_config == Some(config);
        assert(t.instances.contains_key(user));
    }
}

/// Every instance that has a controller has its configuration, and the other
/// way round.
pub open spec fn controllers_are_configured<C, R, T>(s: StateView<C, R, T>) -> bool {
    forall|id: Seq<char>| #[trigger]
        s.instances.contains_key(id) ==> (s.instances[id].controller is Some
            <==> s.instances[id].controller_config is Some)
}

/// An instance has a controller and its configuration together or neither:
/// it is so at the start, and every command keeps it so.
pub proof fn law_controllers_are_configured<C, R, T>(
    s: StateView<C, R, T>,
    id: Seq<char>,
    config: ConfigView,
    connect_event: ConnectEvent<C>,
    load: LoadView,
    load_event: LoadEvent<R>,
    entry: Seq<char>,
    pipeline_override: Seq<char>,
    run_event: RunEvent<T>,
    running: Option<bool>,
    now: u64,
)
    requires
        controllers_are_configured(s),
    ensures
        controllers_are_configured(initial_state::<C, R, T>()),
        controllers_are_configured(after_create(s, id)),
        controllers_are_configured(after_destroy(s, id)),
        controllers_are_configured(connect_step(s, id, config, connect_event).0),
        controllers_are_configured(load_step(s, load, id, load_event).0),
        controllers_are_configured(after_destroy_resource(s, id)),
        controllers_are_configured(run_step(s, id, entry, pipeline_override, run_event).0),
        controllers_are_configured(after_stop(s, id, running, now)),
{
}

/// A connection that was served, from the pool or anew: the instance has the
/// controller under its configuration, its tasker is gone, and nothing else
/// of it changed.
pub open spec fn is_served<C, R, T>(
    s: StateView<C, R, T>,
    t: StateView<C, R, T>,
    id: Seq<char>,
    config: ConfigView,
    controller: C,
) -> bool {
    &&& t.instances.contains_key(id)
    &&& t.instances[id] == (InstanceView {
        controller: Some(controller),
        controller_config: Some(config),
        tasker: None,
        ..s.instances[id]
    })
    &&& same_other_instances(s, t, id)
}

/// A connection for which there is nothing to reuse builds a controller,
/// gives it a sink, sets the size of its screenshots, whether or not that is
/// accepted, posts the connection, and answers with its id. The controller
/// is then the instance's, and pooled for the next one.
pub proof fn law_connect_anew<C, R, T>(
    s: StateView<C, R, T>,
    id: Seq<char>,
    config: ConfigView,
    controller: C,
    pooled: C,
    conn_id: i64,
    short_side: Result<(), String>,
)
    requires
        s.instances.contains_key(id),
        !s.controller_pool.contains_key(config),
        planned(config) is Ok,
    ensures
        ({
            let (s1, a1) = connect_step(s, id, config, ConnectEvent::Begin);
            let (s2, a2) = connect_step(s1, id, config, ConnectEvent::Built(Ok(controller)));
            let (s3, a3) = connect_step(s2, id, config, ConnectEvent::SinkAdded(controller, Ok(())));
            let (s4, a4) = connect_step(
                s3,
                id,
                config,
                ConnectEvent::ShortSideSet(controller, short_side),
            );
            let (t, a5) = connect_step(
                s4,
                id,
                config,
                ConnectEvent::Posted { controller, pooled, reply: Ok(conn_id) },
            );
            &&& a1 == ConnectActionView::<C>::Build(planned(config)->Ok_0)
            &&& a2 == ConnectActionView::AddSink(controller)
            &&& a3 == ConnectActionView::SetShortSide(controller, 720)
            &&& a4 == ConnectActionView::PostConnection(controller)
            &&& a5 == connect_end::<C>(Ok(conn_id))
            &&& is_served(s, t, id, config, controller)
            &&& t.controller_pool.contains_key(config)
            &&& t.controller_pool[config] == pooled
            &&& t.next_conn_id == s.next_conn_id
        }),
{
    let s1 = connect_step(s, id, config, ConnectEvent::Begin).0;
    assert(s1 =~= s);
    let t = connect_posted(s1, id, config, controller, pooled, conn_id).0;
    assert(t.instances.contains_key(id));
}

/// A controller that is pooled and connected is reused for every instance
/// that asks for its configuration: the answer is the next synthetic id,
/// with the notices of a connection, and the pool keeps the controller.
pub proof fn law_connect_reuses<C, R, T>(
    s: StateView<C, R, T>,
    id: Seq<char>,
    config: ConfigView,
    controller: C,
)
    requires
        s.instances.contains_key(id),
        s.controller_pool.contains_key(config),
    ensures
        ({
            let (s1, a1) = connect_step(s, id, config, ConnectEvent::Begin);
            let (t, a2) = connect_step(s1, id, config, ConnectEvent::PoolChecked(Some(controller)));
            &&& s1 == s
            &&& a1 == ConnectActionView::<C>::CheckPooled
            &&& a2 == (ConnectActionView::<C>::Finish {
                result: Ok(s.next_conn_id),
                events: reuse_events(s.next_conn_id),
            })
            &&& is_served(s, t, id, config, controller)
            &&& same_pooled(s, t, config)
            &&& t.next_conn_id == conn_id_after(s.next_conn_id)
        }),
{
    let t = connect_reused(s, id, config, controller).0;
    assert(t.instances.contains_key(id));
}

/// A controller that is pooled and no longer connected is not reused: its
/// entry goes, and a controller is built.
pub proof fn law_stale_controllers_go<C, R, T>(
    s: StateView<C, R, T>,
    id: Seq<char>,
    config: ConfigView,
)
    requires
        s.controller_pool.contains_key(config),
        planned(config) is Ok,
    ensures
        ({
            let (s1, a1) = connect_step(s, id, config, ConnectEvent::Begin);
            let (t, a2) = connect_step(s1, id, config, ConnectEvent::PoolChecked(None));
            &&& a1 == ConnectActionView::<C>::CheckPooled
            &&& a2 == ConnectActionView::<C>::Build(planned(config)->Ok_0)
            &&& !t.controller_pool.contains_key(config)
            &&& t.instances == s.instances
        }),
{
}

/// A step of a connection that ends in an error leaves every instance as it
/// was.
pub proof fn law_failed_connections_change_no_instance<C, R, T>(
    s: StateView<C, R, T>,
    id: Seq<char>,
    config: ConfigView,
    event: ConnectEvent<C>,
)
    requires
        connect_step(s, id, config, event).1 matches ConnectActionView::Finish {
            result: Err(_),
            ..
        },
    ensures
        connect_step(s, id, config, event).0.instances == s.instances,
{
}

/// A tasker stands on a resource and a controller.
pub open spec fn is_backed<C, R, T>(instance: InstanceView<C, R, T>) -> bool {
    instance.tasker is Some ==> instance.resource is Some && instance.controller is Some
}

/// Every tasker stands on a resource and a controller.
pub open spec fn taskers_are_backed<C, R, T>(s: StateView<C, R, T>) -> bool {
    forall|id: Seq<char>| #[trigger] s.instances.contains_key(id) ==> is_backed(s.instances[id])
}

/// No instance ever has a tasker without a resource and a controller: it is
/// so at the start, and every command keeps it so.
pub proof fn law_taskers_are_backed<C, R, T>(
    s: StateView<C, R, T>,
    id: Seq<char>,
    config: ConfigView,
    connect_event: ConnectEvent<C>,
    load: LoadView,
    load_event: LoadEvent<R>,
    entry: Seq<char>,
    pipeline_override: Seq<char>,
    run_event: RunEvent<T>,
    running: Option<bool>,
    now: u64,
)
    requires
        taskers_are_backed(s),
    ensures
        taskers_are_backed(initial_state::<C, R, T>()),
        taskers_are_backed(after_create(s, id)),
        taskers_are_backed(after_destroy(s, id)),
        taskers_are_backed(connect_step(s, id, config, connect_event).0),
        taskers_are_backed(load_step(s, load, id, load_event).0),
        taskers_are_backed(after_destroy_resource(s, id)),
        taskers_are_backed(run_step(s, id, entry, pipeline_override, run_event).0),
        taskers_are_backed(after_stop(s, id, running, now)),
{
}

/// A first run makes a tasker, gives it both sinks, binds it, asks whether
/// it is ready, and posts the task, in this order; the id of the task is
/// kept and is the answer.
pub proof fn law_first_run<C, R, T>(
    s: StateView<C, R, T>,
    id: Seq<char>,
    entry: Seq<char>,
    pipeline_override: Seq<char>,
    tasker: T,
    task_id: i64,
)
    requires
        s.instances.contains_key(id),
        s.instances[id].resource is Some,
        s.instances[id].controller is Some,
        s.instances[id].tasker is None,
    ensures
        ({
            let step = |t: StateView<C, R, T>, e: RunEvent<T>|
                run_step(t, id, entry, pipeline_override, e);
            let (s1, a1) = step(s, RunEvent::Begin);
            let (s2, a2) = step(s1, RunEvent::Created(Ok(tasker)));
            let (s3, a3) = step(s2, RunEvent::SinkAdded(tasker, Ok(())));
            let (s4, a4) = step(s3, RunEvent::ContextSinkAdded(tasker, Ok(())));
            let (s5, a5) = step(s4, RunEvent::Bound(tasker, Ok(())));
            let (s6, a6) = step(s5, RunEvent::Inited(true));
            let (t, a7) = step(s6, RunEvent::Posted(Ok(task_id)));
            &&& a1 == RunActionView::<T>::CreateTasker
            &&& a2 == RunActionView::AddSink(tasker)
            &&& a3 == RunActionView::AddContextSink(tasker)
            &&& a4 == RunActionView::Bind(tasker)
            &&& s4 == s
            &&& a5 == RunActionView::<T>::CheckInited
            &&& a6 == (RunActionView::<T>::PostTask { entry, pipeline_override })
            &&& a7 == RunActionView::<T>::Finish(Ok(task_id))
            &&& t.instances[id] == (InstanceView {
                tasker: Some(tasker),
                task_ids: s.instances[id].task_ids.push(task_id),
                ..s.instances[id]
            })
        }),
{
}

/// An instance that has a tasker runs the next task with it.
pub proof fn law_tasker_is_kept<C, R, T>(
    s: StateView<C, R, T>,
    id: Seq<char>,
    entry: Seq<char>,
    pipeline_override: Seq<char>,
    event: RunEvent<T>,
)
    requires
        s.instances.contains_key(id),
        s.instances[id].resource is Some,
        s.instances[id].controller is Some,
        s.instances[id].tasker is Some,
    ensures
        run_step(s, id, entry, pipeline_override, RunEvent::Begin).1
            == RunActionView::<T>::CheckInited,
        event is Inited || event is Posted ==> run_step(
            s,
            id,
            entry,
            pipeline_override,
            event,
        ).0.instances[id].tasker == s.instances[id].tasker,
{
}

/// A step of a run that ends in an error changes nothing; in particular no
/// task is kept that was not posted.
pub proof fn law_failed_runs_change_nothing<C, R, T>(
    s: StateView<C, R, T>,
    id: Seq<char>,
    entry: Seq<char>,
    pipeline_override: Seq<char>,
    event: RunEvent<T>,
)
    requires
        run_step(s, id, entry, pipeline_override, event).1 matches RunActionView::Finish(Err(_)),
    ensures
        run_step(s, id, entry, pipeline_override, event).0 == s,
{
}

/// Another controller, or another resource, needs another tasker: the next
/// run makes a new one, once there is a resource and a controller.
pub proof fn law_new_parts_need_a_new_tasker<C, R, T>(
    s: StateView<C, R, T>,
    id: Seq<char>,
    controller: C,
    config: ConfigView,
    resource: R,
    actions: Result<(), String>,
    load: LoadView,
    entry: Seq<char>,
    pipeline_override: Seq<char>,
)
    requires
        s.instances.contains_key(id),
        s.instances[id].resource is Some,
        s.instances[id].controller is Some,
    ensures
        run_step(
            after_update(s, id, controller, config),
            id,
            entry,
            pipeline_override,
            RunEvent::<T>::Begin,
        ).1 == RunActionView::<T>::CreateTasker,
        run_step(
            load_step(
                after_destroy_resource(s, id),
                load,
                id,
                LoadEvent::ActionsRegistered(resource, actions),
            ).0,
            id,
            entry,
            pipeline_override,
            RunEvent::<T>::Begin,
        ).1 == RunActionView::<T>::CreateTasker,
{
}

/// After its resource was destroyed an instance makes a new one for the next
/// load, and runs no task before that.
pub proof fn law_destroyed_resources_are_made_anew<C, R, T>(
    s: StateView<C, R, T>,
    id: Seq<char>,
    load: LoadView,
    entry: Seq<char>,
    pipeline_override: Seq<char>,
)
    requires
        s.instances.contains_key(id),
    ensures
        load_step(after_destroy_resource(s, id), load, id, LoadEvent::<R>::Begin).2
            == LoadActionView::<R>::CreateResource,
        run_step(
            after_destroy_resource(s, id),
            id,
            entry,
            pipeline_override,
            RunEvent::<T>::Begin,
        ).1 == RunActionView::<T>::Finish(Err("Resource not loaded"@)),
{
}

/// The ids of the replies that have one, in order.
pub open spec fn accepted(replies: Seq<Result<i64, Seq<char>>>) -> Seq<i64>
    decreases replies.len(),
{
    if replies.len() == 0 {
        Seq::empty()
    } else {
        match replies.last() {
            Ok(id) => accepted(replies.drop_last()).push(id),
            Err(_) => accepted(replies.drop_last()),
        }
    }
}

/// A load after these replies to its bundles.
pub open spec fn load_after(paths: Seq<Seq<char>>, replies: Seq<Result<i64, Seq<char>>>) -> LoadView
    decreases replies.len(),
{
    if replies.len() == 0 {
        new_load(paths)
    } else {
        bundle_replied(load_after(paths, replies.drop_last()), replies.last())
    }
}

/// A load posts every bundle once, in order, and answers with the ids of
/// those that were accepted, in order, whatever became of the others.
pub proof fn law_load_posts_every_bundle<R>(
    paths: Seq<Seq<char>>,
    replies: Seq<Result<i64, Seq<char>>>,
)
    requires
        replies.len() <= paths.len(),
    ensures
        load_after(paths, replies) == (LoadView {
            paths,
            posted: replies.len(),
            res_ids: accepted(replies),
        }),
        next_bundle::<R>(load_after(paths, replies)) == (if replies.len() < paths.len() {
            LoadActionView::<R>::PostBundle(paths[replies.len() as int])
        } else {
            LoadActionView::<R>::Finish(Ok(accepted(replies)))
        }),
    decreases replies.len(),
{
    if replies.len() > 0 {
        law_load_posts_every_bundle::<R>(paths, replies.drop_last());
    }
}

/// A stop that is under way is not posted again within the grace, is posted
/// again to a tasker that still runs after it, and is over as soon as the
/// tasker no longer runs; the next request then posts at once. The tasks
/// that were kept are forgotten with the first.
pub proof fn law_stops<C, R, T>(
    instance: InstanceView<C, R, T>,
    running: Option<bool>,
    first: u64,
    second: u64,
)
    requires
        !instance.stop_in_progress,
        first <= second,
    ensures
        ({
            let (stopping, posted) = stop_step(instance, running, first);
            let (later, again) = stop_step(stopping, Some(true), second);
            let (over, nothing) = stop_step(stopping, Some(false), second);
            &&& posted == StopAction::PostStop
            &&& stopping.task_ids.len() == 0
            &&& second - first < STOP_GRACE_NANOS ==> again == StopAction::Nothing && later
                == stopping
            &&& second - first >= STOP_GRACE_NANOS ==> again == StopAction::PostStop
                && later.stop_started_at == Some(second)
            &&& nothing == StopAction::Nothing
            &&& !over.stop_in_progress
            &&& stop_step(over, running, second).1 == StopAction::PostStop
        }),
{
}

/// Every stop that is under way has the time that it was posted at, and no
/// other has one.
pub open spec fn stops_are_timed<C, R, T>(s: StateView<C, R, T>) -> bool {
    forall|id: Seq<char>| #[trigger]
        s.instances.contains_key(id) ==> (s.instances[id].stop_in_progress
            <==> s.instances[id].stop_started_at is Some)
}

/// A stop is under way exactly when there is a time that it was posted at: it
/// is so at the start, and every command keeps it so.
pub proof fn law_stops_are_timed<C, R, T>(
    s: StateView<C, R, T>,
    id: Seq<char>,
    config: ConfigView,
    connect_event: ConnectEvent<C>,
    load: LoadView,
    load_event: LoadEvent<R>,
    entry: Seq<char>,
    pipeline_override: Seq<char>,
    run_event: RunEvent<T>,
    running: Option<bool>,
    now: u64,
)
    requires
        stops_are_timed(s),
    ensures
        stops_are_timed(initial_state::<C, R, T>()),
        stops_are_timed(after_create(s, id)),
        stops_are_timed(after_destroy(s, id)),
        stops_are_timed(connect_step(s, id, config, connect_event).0),
        stops_are_timed(load_step(s, load, id, load_event).0),
        stops_are_timed(after_destroy_resource(s, id)),
        stops_are_timed(run_step(s, id, entry, pipeline_override, run_event).0),
        stops_are_timed(after_stop(s, id, running, now)),
{
}

/// A stop leaves the parts of an instance alone.
pub proof fn law_stops_keep_the_parts<C, R, T>(
    instance: InstanceView<C, R, T>,
    running: Option<bool>,
    now: u64,
)
    ensures
        ({
            let after = stop_step(instance, running, now).0;
            &&& after.controller == instance.controller
            &&& after.controller_config == instance.controller_config
            &&& after.resource == instance.resource
            &&& after.tasker == instance.tasker
        }),
{
}

/// A leading `v` does not matter to whether a version is compatible.
pub proof fn law_leading_v_does_not_matter(version: Seq<char>, minimum: Seq<char>)
    ensures
        is_compatible(seq!['v'] + version, minimum) == is_compatible(version, minimum),
{
    assert((seq!['v'] + version).skip(1) =~= version);
}

/// A version check finds a version that is no earlier than a compatible one
/// compatible, too, and names the same minimum for both. Both checks come to
/// an end without an error.
pub proof fn law_later_versions_stay_compatible(
    lib_dir: Option<Seq<char>>,
    platform: Platform,
    earlier: String,
    later: String,
    earlier_action: CheckAction,
    later_action: CheckAction,
)
    requires
        is_version(without_leading(earlier@, 'v')),
        is_version(without_leading(later@, 'v')),
        version_at_least(without_leading(later@, 'v'), without_leading(earlier@, 'v')),
        check_step(lib_dir, platform, CheckEvent::Version(Some(earlier)), earlier_action),
        check_step(lib_dir, platform, CheckEvent::Version(Some(later)), later_action),
    ensures
        earlier_action matches CheckAction::Finish(Ok(a)) && later_action matches CheckAction::Finish(
            Ok(b),
        ) && (a.is_compatible ==> b.is_compatible) && a.minimum@ == b.minimum@,
{
    lemma_versions_are_some(earlier@);
    lemma_versions_are_some(later@);
    lemma_minimum();
}

/// What says that there is no version is none.
proof fn lemma_versions_are_some(version: Seq<char>)
    requires
        is_version(without_leading(version, 'v')),
    ensures
        !is_no_version(version),
{
    reveal_strlit("unknown");
}

/// Every window that is kept was found and passes both filters, and every
/// window that was found and passes both is kept.
pub proof fn law_kept_windows_pass(
    class_filter: Option<Seq<char>>,
    window_filter: Option<Seq<char>>,
    windows: Seq<WindowView>,
    window: WindowView,
)
    ensures
        kept_windows(class_filter, window_filter, windows).contains(window) <==> (windows.contains(
            window,
        ) && keeps_window(class_filter, window_filter, window)),
    decreases windows.len(),
{
    reveal(Seq::filter);
    if windows.len() > 0 {
        let rest = windows.drop_last();
        let kept = kept_windows(class_filter, window_filter, rest);
        law_kept_windows_pass(class_filter, window_filter, rest, window);
        assert(windows =~= rest.push(windows.last()));
        lemma_push_contains(rest, windows.last(), window);
        lemma_push_contains(kept, windows.last(), window);
    }
}

proof fn lemma_push_contains<A>(items: Seq<A>, item: A, sought: A)
    ensures
        items.push(item).contains(sought) == (items.contains(sought) || item == sought),
{
    if items.contains(sought) {
        let i = choose|i: int| 0 <= i < items.len() && items[i] == sought;
        assert(items.push(item)[i] == sought);
    }
    if item == sought {
        assert(items.push(item)[items.len() as int] == sought);
    }
    if items.push(item).contains(sought) && item != sought {
        let i = choose|i: int| 0 <= i < items.push(item).len() && items.push(item)[i] == sought;
        assert(items[i] == sought);
    }
}

/// Windows that passed both filters all pass them again.
pub proof fn law_filters_are_idempotent(
    class_filter: Option<Seq<char>>,
    window_filter: Option<Seq<char>>,
    windows: Seq<WindowView>,
)
    ensures
        kept_windows(
            class_filter,
            window_filter,
            kept_windows(class_filter, window_filter, windows),
        ) == kept_windows(class_filter, window_filter, windows),
    decreases windows.len(),
{
    reveal(Seq::filter);
    if windows.len() > 0 {
        let rest = windows.drop_last();
        let kept = kept_windows(class_filter, window_filter, rest);
        law_filters_are_idempotent(class_filter, window_filter, rest);
        assert(kept.push(windows.last()).drop_last() =~= kept);
    }
}

/// To filter by both at once is to filter by the class first and by the name
/// then.
pub proof fn law_filters_compose(
    class_filter: Option<Seq<char>>,
    window_filter: Option<Seq<char>>,
    windows: Seq<WindowView>,
)
    ensures
        kept_windows(class_filter, window_filter, windows) == kept_windows(
            None,
            window_filter,
            kept_windows(class_filter, None, windows),
        ),
    decreases windows.len(),
{
    reveal(Seq::filter);
    if windows.len() > 0 {
        let rest = windows.drop_last();
        let kept = kept_windows(class_filter, None, rest);
        law_filters_compose(class_filter, window_filter, rest);
        assert(kept.push(windows.last()).drop_last() =~= kept);
    }
}

/// Without filters every window that was found is kept.
pub proof fn law_no_filter_keeps_all(windows: Seq<WindowView>)
    ensures
        kept_windows(None, None, windows) == windows,
    decreases windows.len(),
{
    reveal(Seq::filter);
    if windows.len() > 0 {
        law_no_filter_keeps_all(windows.drop_last());
        assert(windows.drop_last().push(windows.last()) =~= windows);
    }
}

/// The directory of a library that is given as a file is the one that the
/// file is in. Where only backslashes separate, that is so on the platform
/// that they separate on; on the others such a path is a bare name, whose
/// directory is the empty one.
pub proof fn law_file_names_its_directory(
    platform: Platform,
    dir: Seq<char>,
    name: Seq<char>,
    found_dir: Seq<char>,
    library: Seq<char>,
)
    requires
        is_plain_dir(dir),
        is_file_name(name),
    ensures
        is_location(platform, file_path(dir, '/', name), true, found_dir, library) ==> found_dir
            == dir && library == file_path(dir, '/', name),
        !dir.contains('/') && is_location(
            platform,
            file_path(dir, '\\', name),
            true,
            found_dir,
            library,
        ) ==> (found_dir == dir || found_dir == Seq::<char>::empty()) && library == file_path(
            dir,
            '\\',
            name,
        ),
{
}

/// A version check loads the library from the directory that the last
/// initialisation kept, whether or not its own load came through.
pub proof fn law_check_loads_what_init_found<C, R, T>(
    s: StateView<C, R, T>,
    t: StateView<C, R, T>,
    platform: Platform,
    path: String,
    is_file: bool,
    init_action: InitAction,
    check_action: CheckAction,
)
    requires
        init_step(
            s,
            platform,
            InitEvent::Probed { path, exists: true, is_file },
            t,
            init_action,
        ),
        check_step(t.lib_dir, platform, CheckEvent::Begin, check_action),
    ensures
        check_action matches CheckAction::Load(library) && is_path_in(
            library@,
            t.lib_dir->0,
            library_name(platform),
        ),
        !is_file ==> t.lib_dir == Some(path@),
{
}

proof fn lemma_base64_chars(a: int, b: int)
    requires
        0 <= a < 64,
        0 <= b < 64,
        base64_char(a) == base64_char(b),
    ensures
        a == b,
        base64_char(a) != '=',
{
    reveal(base64_char);
}

/// The base64 text of `n` bytes has four characters for each three bytes or
/// part of three.
pub proof fn law_base64_len(data: Seq<u8>)
    ensures
        base64_text(data).len() == (data.len() + 2) / 3 * 4,
    decreases data.len(),
{
    if data.len() >= 3 {
        law_base64_len(data.skip(3));
    }
}

/// The four groups of six bits of a number tell the number.
#[verifier::spinoff_prover]
proof fn lemma_twenty_four_bits(n: int, m: int)
    requires
        0 <= n < 16777216,
        0 <= m < 16777216,
        base64_char(n / 262144) == base64_char(m / 262144),
        base64_char(n / 4096 % 64) == base64_char(m / 4096 % 64),
        base64_char(n / 64 % 64) == base64_char(m / 64 % 64),
        base64_char(n % 64) == base64_char(m % 64),
    ensures
        n == m,
{
    lemma_base64_chars(n / 262144, m / 262144);
    lemma_base64_chars(n / 4096 % 64, m / 4096 % 64);
    lemma_base64_chars(n / 64 % 64, m / 64 % 64);
    lemma_base64_chars(n % 64, m % 64);
}

/// A whole group is told by its four characters.
#[verifier::spinoff_prover]
proof fn lemma_base64_group(a: Seq<u8>, b: Seq<u8>)
    requires
        a.len() >= 3,
        b.len() >= 3,
        base64_text(a) == base64_text(b),
    ensures
        a.take(3) == b.take(3),
        base64_text(a.skip(3)) == base64_text(b.skip(3)),
{
    let s = base64_text(a);
    let t = base64_text(b);
    assert(s.skip(4) =~= base64_text(a.skip(3)));
    assert(t.skip(4) =~= base64_text(b.skip(3)));
    let n = a[0] * 65536 + a[1] * 256 + a[2];
    let m = b[0] * 65536 + b[1] * 256 + b[2];
    assert(s[0] == base64_char(n / 262144) && t[0] == base64_char(m / 262144));
    assert(s[1] == base64_char(n / 4096 % 64) && t[1] == base64_char(m / 4096 % 64));
    assert(s[2] == base64_char(n / 64 % 64) && t[2] == base64_char(m / 64 % 64));
    assert(s[3] == base64_char(n % 64) && t[3] == base64_char(m % 64));
    lemma_twenty_four_bits(n, m);
    assert(a[0] == b[0] && a[1] == b[1] && a[2] == b[2]);
    assert(a.take(3) =~= b.take(3));
}

/// A last group of one byte is told by its characters.
#[verifier::spinoff_prover]
proof fn lemma_base64_one(a: Seq<u8>, b: Seq<u8>)
    requires
        a.len() == 1,
        b.len() == 1,
        base64_text(a) == base64_text(b),
    ensures
        a == b,
{
    let n = a[0] * 16;
    let m = b[0] * 16;
    assert(base64_char(n / 64) == base64_text(a)[0]);
    assert(base64_char(m / 64) == base64_text(b)[0]);
    assert(base64_char(n % 64) == base64_text(a)[1]);
    assert(base64_char(m % 64) == base64_text(b)[1]);
    lemma_base64_chars(n / 64, m / 64);
    lemma_base64_chars(n % 64, m % 64);
    assert(a =~= b);
}

/// The three groups of six bits of a number tell the number.
#[verifier::spinoff_prover]
proof fn lemma_eighteen_bits(n: int, m: int)
    requires
        0 <= n < 262144,
        0 <= m < 262144,
        base64_char(n / 4096) == base64_char(m / 4096),
        base64_char(n / 64 % 64) == base64_char(m / 64 % 64),
        base64_char(n % 64) == base64_char(m % 64),
    ensures
        n == m,
{
    lemma_base64_chars(n / 4096, m / 4096);
    lemma_base64_chars(n / 64 % 64, m / 64 % 64);
    lemma_base64_chars(n % 64, m % 64);
}

/// A last group of two bytes is told by its characters.
#[verifier::spinoff_prover]
proof fn lemma_base64_two(a: Seq<u8>, b: Seq<u8>)
    requires
        a.len() == 2,
        b.len() == 2,
        base64_text(a) == base64_text(b),
    ensures
        a == b,
{
    let n = (a[0] * 256 + a[1]) * 4;
    let m = (b[0] * 256 + b[1]) * 4;
    assert(base64_char(n / 4096) == base64_text(a)[0]);
    assert(base64_char(m / 4096) == base64_text(b)[0]);
    assert(base64_char(n / 64 % 64) == base64_text(a)[1]);
    assert(base64_char(m / 64 % 64) == base64_text(b)[1]);
    assert(base64_char(n % 64) == base64_text(a)[2]);
    assert(base64_char(m % 64) == base64_text(b)[2]);
    lemma_eighteen_bits(n, m);
    assert(a =~= b);
}

/// The padding of a last group tells how many bytes it holds.
#[verifier::spinoff_prover]
proof fn lemma_base64_last(data: Seq<u8>)
    requires
        1 <= data.len() <= 3,
    ensures
        base64_text(data)[2] == '=' <==> data.len() == 1,
        base64_text(data)[3] == '=' <==> data.len() <= 2,
{
    if data.len() == 2 {
        let n = (data[0] * 256 + data[1]) * 4;
        lemma_base64_chars(n % 64, n % 64);
    } else if data.len() == 3 {
        let n = data[0] * 65536 + data[1] * 256 + data[2];
        lemma_base64_chars(n / 64 % 64, n / 64 % 64);
        lemma_base64_chars(n % 64, n % 64);
    }
}

/// Different bytes have different base64 texts.
pub proof fn law_base64_is_injective(a: Seq<u8>, b: Seq<u8>)
    requires
        base64_text(a) == base64_text(b),
    ensures
        a == b,
    decreases a.len(),
{
    law_base64_len(a);
    law_base64_len(b);
    if a.len() >= 3 && b.len() >= 3 {
        lemma_base64_group(a, b);
        law_base64_is_injective(a.skip(3), b.skip(3));
        assert(a =~= a.take(3) + a.skip(3));
        assert(b =~= b.take(3) + b.skip(3));
    } else if a.len() > 0 && b.len() > 0 {
        lemma_base64_last(a);
        lemma_base64_last(b);
        if a.len() == 1 {
            lemma_base64_one(a, b);
        } else {
            lemma_base64_two(a, b);
        }
    } else {
        assert(a =~= b);
    }
}

/// Different images have different data URLs.
pub proof fn law_images_are_told_apart(a: Seq<u8>, b: Seq<u8>)
    requires
        image_url(a) == image_url(b),
    ensures
        a == b,
{
    let head = "data:image/png;base64,"@;
    assert(image_url(a).skip(head.len() as int) =~= base64_text(a));
    assert(image_url(b).skip(head.len() as int) =~= base64_text(b));
    law_base64_is_injective(a, b);
}

} // verus!
