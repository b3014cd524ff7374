//! The resources of an instance: making them, and loading bundles.

use vstd::prelude::*;

use crate::connect::reply_view;
use crate::state::{with_instance, InstanceView, MaaState, StateView};

verus! {

/// How far a load is: the bundles to post, how many were posted, and the ids
/// of those that were accepted.
#[derive(Debug, PartialEq, Eq)]
pub struct ResourceLoad {
    pub paths: Vec<String>,
    pub posted: usize,
    pub res_ids: Vec<i64>,
}

#[verifier::ext_equal]
pub struct LoadView {
    pub paths: Seq<Seq<char>>,
    pub posted: nat,
    pub res_ids: Seq<i64>,
}

/// What each text of a list says.
pub open spec fn text_views(texts: Seq<String>) -> Seq<Seq<char>> {
    texts.map_values(|t: String| t@)
}

impl View for ResourceLoad {
    type V = LoadView;

    open spec fn view(&self) -> LoadView {
        LoadView {
            paths: text_views(self.paths@),
            posted: self.posted as nat,
            res_ids: self.res_ids@,
        }
    }
}

/// A load that has posted nothing yet.
pub open spec fn new_load(paths: Seq<Seq<char>>) -> LoadView {
    LoadView { paths, posted: 0, res_ids: Seq::empty() }
}

impl ResourceLoad {
    pub fn new(paths: Vec<String>) -> (load: Self)
        ensures
            load@ == new_load(text_views(paths@)),
    {
        ResourceLoad { paths, posted: 0, res_ids: Vec::new() }
    }
}

/// What came of the last action.
pub enum LoadEvent<R> {
    /// The request came in.
    Begin,
    Created(Result<R, String>),
    SinkAdded(R, Result<(), String>),
    ActionsRegistered(R, Result<(), String>),
    BundlePosted(Result<i64, String>),
}

/// What is to be done next.
#[derive(Debug, PartialEq, Eq)]
pub enum LoadAction<R> {
    CreateResource,
    AddSink(R),
    RegisterActions(R),
    PostBundle(String),
    Finish(Result<Vec<i64>, String>),
}

pub enum LoadActionView<R> {
    CreateResource,
    AddSink(R),
    RegisterActions(R),
    PostBundle(Seq<char>),
    Finish(Result<Seq<i64>, Seq<char>>),
}

impl<R> View for LoadAction<R> {
    type V = LoadActionView<R>;

    open spec fn view(&self) -> LoadActionView<R> {
        match self {
            LoadAction::CreateResource => LoadActionView::CreateResource,
            LoadAction::AddSink(r) => LoadActionView::AddSink(*r),
            LoadAction::RegisterActions(r) => LoadActionView::RegisterActions(*r),
            LoadAction::PostBundle(path) => LoadActionView::PostBundle(path@),
            LoadAction::Finish(Ok(ids)) => LoadActionView::Finish(Ok(ids@)),
            LoadAction::Finish(Err(e)) => LoadActionView::Finish(Err(e@)),
        }
    }
}

/// The next bundle is posted; after the last one the ids are the answer.
pub open spec fn next_bundle<R>(load: LoadView) -> LoadActionView<R> {
    if load.posted < load.paths.len() {
        LoadActionView::PostBundle(load.paths[load.posted as int])
    } else {
        LoadActionView::Finish(Ok(load.res_ids))
    }
}

/// The load after the reply to a bundle: one that was not accepted has no
/// id, and does not stop the load.
pub open spec fn bundle_replied(load: LoadView, reply: Result<i64, Seq<char>>) -> LoadView {
    if load.posted < load.paths.len() {
        LoadView {
            posted: load.posted + 1,
            res_ids: match reply {
                Ok(id) => load.res_ids.push(id),
                Err(_) => load.res_ids,
            },
            ..load
        }
    } else {
        load
    }
}

/// One step of a load.
pub open spec fn load_step<C, R, T>(
    s: StateView<C, R, T>,
    load: LoadView,
    id: Seq<char>,
    event: LoadEvent<R>,
) -> (StateView<C, R, T>, LoadView, LoadActionView<R>) {
    match event {
        LoadEvent::Begin => (
            s,
            load,
            if !s.instances.contains_key(id) {
                LoadActionView::Finish(Err("Instance not found"@))
            } else if s.instances[id].resource is None {
                LoadActionView::CreateResource
            } else {
                next_bundle(load)
            },
        ),
        LoadEvent::Created(Ok(resource)) => (s, load, LoadActionView::AddSink(resource)),
        LoadEvent::Created(Err(e)) => (s, load, LoadActionView::Finish(Err(e@))),
        LoadEvent::SinkAdded(resource, Ok(())) => (
            s,
            load,
            LoadActionView::RegisterActions(resource),
        ),
        LoadEvent::SinkAdded(_, Err(e)) => (s, load, LoadActionView::Finish(Err(e@))),
        // Actions that were not registered do not stop the load.
        LoadEvent::ActionsRegistered(resource, _) => if s.instances.contains_key(id) {
            (
                with_instance(
                    s,
                    id,
                    InstanceView { resource: Some(resource), ..s.instances[id] },
                ),
                load,
                next_bundle(load),
            )
        } else {
            (s, load, LoadActionView::Finish(Err("Instance not found"@)))
        },
        LoadEvent::BundlePosted(reply) => {
            let replied = bundle_replied(load, reply_view(reply));
            (s, replied, next_bundle(replied))
        },
    }
}

fn post_next<R>(load: &ResourceLoad) -> (action: LoadAction<R>)
    ensures
        action@ == next_bundle::<R>(load@),
{
    if load.posted < load.paths.len() {
        LoadAction::PostBundle(load.paths[load.posted].clone())
    } else {
        let ids = load.res_ids.clone();
        assert(ids@ =~= load.res_ids@);
        LoadAction::Finish(Ok(ids))
    }
}

/// Takes a load one step further: from what came of the last action to the
/// next one.
pub fn maa_load_resource<C, R, T>(
    state: &mut MaaState<C, R, T>,
    load: &mut ResourceLoad,
    instance_id: &String,
    event: LoadEvent<R>,
) -> (action: LoadAction<R>)
    requires
        old(state).wf(),
    ensures
        final(state).wf(),
        (final(state)@, final(load)@, action@) == load_step(
            old(state)@,
            old(load)@,
            instance_id@,
            event,
        ),
{
    match event {
        LoadEvent::Begin => match state.instance(instance_id) {
            Some(instance) => if instance.resource.is_none() {
                LoadAction::CreateResource
            } else {
                post_next(load)
            },
            None => LoadAction::Finish(Err("Instance not found".to_string())),
        },
        LoadEvent::Created(Ok(resource)) => LoadAction::AddSink(resource),
        LoadEvent::Created(Err(e)) => LoadAction::Finish(Err(e)),
        LoadEvent::SinkAdded(resource, Ok(())) => LoadAction::RegisterActions(resource),
        LoadEvent::SinkAdded(_, Err(e)) => LoadAction::Finish(Err(e)),
        LoadEvent::ActionsRegistered(resource, _) => {
            let ghost before = state@;
            match state.take_instance(instance_id) {
                Some(mut instance) => {
                    instance.resource = Some(resource);
                    let ghost view = instance@;
                    state.put_instance(instance_id.clone(), instance);
                    assert(state@ =~= with_instance(before, instance_id@, view));
                    post_next(load)
                },
                None => LoadAction::Finish(Err("Instance not found".to_string())),
            }
        },
        LoadEvent::BundlePosted(reply) => {
            if load.posted < load.paths.len() {
                match reply {
                    Ok(id) => {
                        load.res_ids.push(id);
                    },
                    Err(_) => {},
                }
                load.posted = load.posted + 1;
            }
            post_next(load)
        },
    }
}

/// What a question for whether a resource is loaded is answered.
pub open spec fn loaded_answer<C, R, T>(
    s: StateView<C, R, T>,
    id: Seq<char>,
    loaded: bool,
) -> Result<bool, Seq<char>> {
    if s.instances.contains_key(id) {
        Ok(s.instances[id].resource is Some && loaded)
    } else {
        Err("Instance not found"@)
    }
}

/// Whether the resource of an instance is loaded; `loaded` is what the
/// resource, where there is one, says of itself.
pub fn maa_is_resource_loaded<C, R, T>(
    state: &MaaState<C, R, T>,
    instance_id: String,
    loaded: bool,
) -> (result: Result<bool, String>)
    requires
        state.wf(),
    ensures
        match result {
            Ok(answer) => state@.instances.contains_key(instance_id@) && answer == (
            state@.instances[instance_id@].resource is Some && loaded),
            Err(e) => !state@.instances.contains_key(instance_id@) && e@ == "Instance not found"@,
        },
        reply_view(result) == loaded_answer(state@, instance_id@, loaded),
{
    match state.instance(&instance_id) {
        Some(instance) => Ok(instance.resource.is_some() && loaded),
        None => Err("Instance not found".to_string()),
    }
}

/// The state after a resource was destroyed: the tasker that was bound to it
/// goes with it.
pub open spec fn after_destroy_resource<C, R, T>(
    s: StateView<C, R, T>,
    id: Seq<char>,
) -> StateView<C, R, T> {
    if s.instances.contains_key(id) {
        with_instance(s, id, InstanceView { resource: None, tasker: None, ..s.instances[id] })
    } else {
        s
    }
}

/// Destroys the resource of an instance, so that another can be made.
pub fn maa_destroy_resource<C, R, T>(
    state: &mut MaaState<C, R, T>,
    instance_id: String,
) -> (result: Result<(), String>)
    requires
        old(state).wf(),
    ensures
        final(state).wf(),
        final(state)@ == after_destroy_resource(old(state)@, instance_id@),
        match result {
            Ok(()) => old(state)@.instances.contains_key(instance_id@),
            Err(e) => !old(state)@.instances.contains_key(instance_id@) && e@
                == "Instance not found"@,
        },
{
    let ghost before = state@;
    let ghost id = instance_id@;
    match state.take_instance(&instance_id) {
        Some(mut instance) => {
            instance.resource = None;
            instance.tasker = None;
            let ghost view = instance@;
            state.put_instance(instance_id, instance);
            assert(state@ =~= with_instance(before, id, view));
            Ok(())
        },
        None => Err("Instance not found".to_string()),
    }
}

} // verus!
