//! What a load posts, and what it answers.

use vstd::prelude::*;

use crate::resource::{
    load_step, loaded_answer, new_load, LoadAction, LoadActionView, LoadEvent, LoadView, ResourceLoad,
};
use crate::state::{InstanceView, StateView};

verus! {

/// A load that goes on after an event, followed by the replies to its bundles:
/// where it then is, and what it does next.
pub open spec fn load_run<C, R, T>(
    s: StateView<C, R, T>,
    load: LoadView,
    id: Seq<char>,
    event: LoadEvent<R>,
    replies: Seq<Result<i64, String>>,
) -> (StateView<C, R, T>, LoadView, LoadActionView<R>)
    decreases replies.len(),
{
    if replies.len() == 0 {
        load_step(s, load, id, event)
    } else {
        let before = load_run(s, load, id, event, replies.drop_last());
        load_step(before.0, before.1, id, LoadEvent::BundlePosted(replies.last()))
    }
}

/// The ids of the replies that have one, in order.
pub open spec fn ids_of(replies: Seq<Result<i64, String>>) -> Seq<i64>
    decreases replies.len(),
{
    if replies.len() == 0 {
        Seq::empty()
    } else {
        match replies.last() {
            Ok(id) => ids_of(replies.drop_last()).push(id),
            Err(_) => ids_of(replies.drop_last()),
        }
    }
}

/// A new load has all its bundles ahead of it, and no id.
pub proof fn law_new_loads(paths: Seq<Seq<char>>)
    ensures
        new_load(paths).paths == paths,
        new_load(paths).posted == 0,
        new_load(paths).res_ids.len() == 0,
{
}

/// The event after which a load posts its first bundle: the request, where
/// the instance has a resource, or that the actions of the resource that was
/// made for it were registered.
pub open spec fn starts_posting<C, R, T>(
    s: StateView<C, R, T>,
    id: Seq<char>,
    event: LoadEvent<R>,
) -> bool {
    &&& s.instances.contains_key(id)
    &&& event is ActionsRegistered || (event is Begin && s.instances[id].resource is Some)
}

/// From the request to the answer, the bundles that a load posts are the
/// paths that were asked for, each once and in order, whatever the replies.
/// After the reply to the last one, and not before, it answers with the ids
/// of the bundles that were accepted, in order.
pub proof fn law_every_path_is_posted_in_order<C, R, T>(
    s: StateView<C, R, T>,
    paths: Seq<Seq<char>>,
    id: Seq<char>,
    event: LoadEvent<R>,
    replies: Seq<Result<i64, String>>,
)
    requires
        starts_posting(s, id, event),
        replies.len() <= paths.len(),
    ensures
        ({
            let (t, load, action) = load_run(s, new_load(paths), id, event, replies);
            &&& replies.len() < paths.len() ==> action == LoadActionView::<R>::PostBundle(
                paths[replies.len() as int],
            )
            &&& replies.len() == paths.len() ==> action == LoadActionView::<R>::Finish(
                Ok(ids_of(replies)),
            )
            &&& load.paths == paths
            &&& load.posted == replies.len()
            &&& load.res_ids == ids_of(replies)
            &&& t == load_step(s, new_load(paths), id, event).0
        }),
    decreases replies.len(),
{
    if replies.len() > 0 {
        law_every_path_is_posted_in_order(s, paths, id, event, replies.drop_last());
    }
}

/// However far a load is, it posts the first bundle that it did not post yet,
/// or answers with its ids where there is none. A reply counts the bundle as
/// posted, and its id, where it has one, goes behind the others; a reply that
/// nothing was asked for changes nothing. No reply changes the state.
pub proof fn law_loads_go_on_where_they_are<C, R, T>(
    s: StateView<C, R, T>,
    load: LoadView,
    id: Seq<char>,
    event: LoadEvent<R>,
    reply: Result<i64, String>,
)
    requires
        starts_posting(s, id, event),
    ensures
        ({
            let (_, same, action) = load_step(s, load, id, event);
            &&& same == load
            &&& load.posted < load.paths.len() ==> action == LoadActionView::<R>::PostBundle(
                load.paths[load.posted as int],
            )
            &&& load.posted >= load.paths.len() ==> action == LoadActionView::<R>::Finish(
                Ok(load.res_ids),
            )
        }),
        ({
            let (t, after, action) = load_step(s, load, id, LoadEvent::<R>::BundlePosted(reply));
            &&& t == s
            &&& after.paths == load.paths
            &&& load.posted < load.paths.len() ==> after.posted == load.posted + 1
            &&& load.posted < load.paths.len() ==> after.res_ids == match reply {
                Ok(res_id) => load.res_ids.push(res_id),
                Err(_) => load.res_ids,
            }
            &&& load.posted >= load.paths.len() ==> after == load
            &&& after.posted < load.paths.len() ==> action == LoadActionView::<R>::PostBundle(
                load.paths[after.posted as int],
            )
            &&& after.posted >= load.paths.len() ==> action == LoadActionView::<R>::Finish(
                Ok(after.res_ids),
            )
        }),
{
}

/// The steps of a load that has to make its resource, up to the first bundle:
/// the resource is made, gets its sink and its actions, and only then belongs
/// to the instance, of which nothing else changes. Actions that could not be
/// registered stop nothing.
pub proof fn law_resources_are_made_first<C, R, T>(
    s: StateView<C, R, T>,
    load: LoadView,
    id: Seq<char>,
    resource: R,
    actions: Result<(), String>,
)
    requires
        s.instances.contains_key(id),
    ensures
        s.instances[id].resource is None ==> load_step(s, load, id, LoadEvent::<R>::Begin) == (
            s,
            load,
            LoadActionView::<R>::CreateResource,
        ),
        s.instances[id].resource is Some ==> load_step(s, load, id, LoadEvent::<R>::Begin).0 == s,
        load_step(s, load, id, LoadEvent::Created(Ok(resource))) == (
            s,
            load,
            LoadActionView::AddSink(resource),
        ),
        load_step(s, load, id, LoadEvent::SinkAdded(resource, Ok(()))) == (
            s,
            load,
            LoadActionView::RegisterActions(resource),
        ),
        ({
            let t = load_step(s, load, id, LoadEvent::ActionsRegistered(resource, actions)).0;
            let before = s.instances[id];
            let after: InstanceView<C, R, T> = t.instances[id];
            &&& t.instances.contains_key(id)
            &&& after.resource == Some(resource)
            &&& after.tasker == before.tasker
            &&& after.controller == before.controller
            &&& after.controller_config == before.controller_config
            &&& after.task_ids == before.task_ids
            &&& after.stop_in_progress == before.stop_in_progress
            &&& after.stop_started_at == before.stop_started_at
        }),
{
}

/// A load ends with an error, and changes nothing, exactly where the resource
/// could not be made or given its sink, with the framework's own words, or
/// where there is no instance to begin with or to give the resource to. The
/// reply to a bundle never ends it with an error.
pub proof fn law_load_errors<C, R, T>(
    s: StateView<C, R, T>,
    load: LoadView,
    id: Seq<char>,
    event: LoadEvent<R>,
)
    ensures
        ({
            let (t, after, action) = load_step(s, load, id, event);
            let framework_error = match event {
                LoadEvent::Created(Err(e)) => Some(e@),
                LoadEvent::SinkAdded(_, Err(e)) => Some(e@),
                _ => None,
            };
            let no_instance = !s.instances.contains_key(id) && (event is Begin
                || event is ActionsRegistered);
            &&& framework_error matches Some(e) ==> action == LoadActionView::<R>::Finish(Err(e))
            &&& no_instance ==> action == LoadActionView::<R>::Finish(Err("Instance not found"@))
            &&& action matches LoadActionView::Finish(Err(_)) ==> framework_error is Some
                || no_instance
            &&& action matches LoadActionView::Finish(Err(_)) ==> t == s && after == load
        }),
{
}

/// A resource is loaded exactly when the instance has one and that says so.
/// Without an instance there is no answer.
pub proof fn law_loaded_resources<C, R, T>(s: StateView<C, R, T>, id: Seq<char>, loaded: bool)
    ensures
        loaded_answer(s, id, loaded) == Ok::<bool, Seq<char>>(true) <==> s.instances.contains_key(
            id,
        ) && s.instances[id].resource is Some && loaded,
        loaded_answer(s, id, loaded) == Err::<bool, Seq<char>>("Instance not found"@)
            <==> !s.instances.contains_key(id),
        loaded_answer(s, id, loaded) is Err <==> !s.instances.contains_key(id),
{
}

/// What is said of a load is what it holds.
pub proof fn law_loads_say_what_they_hold(load: ResourceLoad)
    ensures
        load@.paths.len() == load.paths@.len(),
        forall|i: int| 0 <= i < load.paths@.len() ==> #[trigger] load@.paths[i] == load.paths@[i]@,
        load@.posted == load.posted,
        load@.res_ids == load.res_ids@,
{
}

/// What is said of the next action of a load is what it holds.
pub proof fn law_load_actions_say_what_they_hold<R>(action: LoadAction<R>)
    ensures
        action is CreateResource <==> action@ is CreateResource,
        action is AddSink <==> action@ is AddSink,
        action is RegisterActions <==> action@ is RegisterActions,
        action is PostBundle <==> action@ is PostBundle,
        action is Finish <==> action@ is Finish,
        action matches LoadAction::AddSink(r) ==> action@ == LoadActionView::AddSink(r),
        action matches LoadAction::RegisterActions(r) ==> action@
            == LoadActionView::RegisterActions(r),
        action matches LoadAction::PostBundle(path) ==> action@ == LoadActionView::<R>::PostBundle(
            path@,
        ),
        action matches LoadAction::Finish(Ok(ids)) ==> action@ == LoadActionView::<R>::Finish(
            Ok(ids@),
        ),
        action matches LoadAction::Finish(Err(e)) ==> action@ == LoadActionView::<R>::Finish(
            Err(e@),
        ),
{
}

} // verus!
