//! Loading resources.

use maa_core::resource::{
    maa_destroy_resource, maa_is_resource_loaded, maa_load_resource, LoadAction, LoadEvent,
    ResourceLoad,
};
use maa_core::state::{maa_create_instance, MaaState};

fn text(t: &str) -> String {
    t.to_string()
}

fn state_with(name: &str) -> MaaState<u32, u32, u32> {
    let mut state = MaaState::new();
    assert_eq!(maa_create_instance(&mut state, text(name)), Ok(()));
    state
}

fn load_of(paths: &[&str]) -> ResourceLoad {
    ResourceLoad::new(paths.iter().map(|p| text(p)).collect())
}

fn step(
    state: &mut MaaState<u32, u32, u32>,
    load: &mut ResourceLoad,
    event: LoadEvent<u32>,
) -> LoadAction<u32> {
    maa_load_resource(state, load, &text("a"), event)
}

#[test]
fn a_first_load_makes_the_resource() {
    let mut state = state_with("a");
    let mut load = load_of(&["base", "extra"]);
    let action = step(&mut state, &mut load, LoadEvent::Begin);
    assert_eq!(action, LoadAction::CreateResource);
    let action = step(&mut state, &mut load, LoadEvent::Created(Ok(4)));
    assert_eq!(action, LoadAction::AddSink(4));
    let action = step(&mut state, &mut load, LoadEvent::SinkAdded(4, Ok(())));
    assert_eq!(action, LoadAction::RegisterActions(4));
    assert_eq!(state.resource(&text("a")), None);
    let refused = LoadEvent::ActionsRegistered(4, Err(text("no actions")));
    let action = step(&mut state, &mut load, refused);
    assert_eq!(action, LoadAction::PostBundle(text("base")));
    assert_eq!(state.resource(&text("a")), Some(&4));
}

#[test]
fn bundles_go_one_after_the_other() {
    let mut state = state_with("a");
    let mut load = load_of(&["base", "bad", "extra"]);
    let action = step(&mut state, &mut load, LoadEvent::ActionsRegistered(4, Ok(())));
    assert_eq!(action, LoadAction::PostBundle(text("base")));
    let action = step(&mut state, &mut load, LoadEvent::BundlePosted(Ok(11)));
    assert_eq!(action, LoadAction::PostBundle(text("bad")));
    let action = step(&mut state, &mut load, LoadEvent::BundlePosted(Err(text("no"))));
    assert_eq!(action, LoadAction::PostBundle(text("extra")));
    let action = step(&mut state, &mut load, LoadEvent::BundlePosted(Ok(13)));
    assert_eq!(action, LoadAction::Finish(Ok(vec![11, 13])));
    let mut again = load_of(&["base"]);
    let action = step(&mut state, &mut again, LoadEvent::Begin);
    assert_eq!(action, LoadAction::PostBundle(text("base")));
}

#[test]
fn a_load_of_nothing_ends_at_once() {
    let mut state = state_with("a");
    let mut load = load_of(&[]);
    let action = step(&mut state, &mut load, LoadEvent::ActionsRegistered(4, Ok(())));
    assert_eq!(action, LoadAction::Finish(Ok(vec![])));
    let action = step(&mut state, &mut load, LoadEvent::BundlePosted(Ok(1)));
    assert_eq!(action, LoadAction::Finish(Ok(vec![])));
}

#[test]
fn a_load_that_fails_leaves_no_resource() {
    let mut state = state_with("a");
    let mut load = load_of(&["base"]);
    let action = step(&mut state, &mut load, LoadEvent::Created(Err(text("no resource"))));
    assert_eq!(action, LoadAction::Finish(Err(text("no resource"))));
    let action = step(&mut state, &mut load, LoadEvent::SinkAdded(4, Err(text("no sink"))));
    assert_eq!(action, LoadAction::Finish(Err(text("no sink"))));
    assert_eq!(state.resource(&text("a")), None);
}

#[test]
fn a_load_needs_an_instance() {
    let mut state: MaaState<u32, u32, u32> = MaaState::new();
    let mut load = load_of(&["base"]);
    let missing = || LoadAction::Finish(Err(text("Instance not found")));
    assert_eq!(step(&mut state, &mut load, LoadEvent::Begin), missing());
    let late = LoadEvent::ActionsRegistered(4, Ok(()));
    assert_eq!(step(&mut state, &mut load, late), missing());
}

#[test]
fn a_resource_says_whether_it_is_loaded() {
    let mut state = state_with("a");
    assert_eq!(maa_is_resource_loaded(&state, text("a"), true), Ok(false));
    let mut load = load_of(&[]);
    step(&mut state, &mut load, LoadEvent::ActionsRegistered(4, Ok(())));
    assert_eq!(maa_is_resource_loaded(&state, text("a"), true), Ok(true));
    assert_eq!(maa_is_resource_loaded(&state, text("a"), false), Ok(false));
    assert_eq!(
        maa_is_resource_loaded(&state, text("b"), true),
        Err(text("Instance not found"))
    );
}

#[test]
fn a_destroyed_resource_is_made_anew() {
    let mut state = state_with("a");
    let mut load = load_of(&["base"]);
    step(&mut state, &mut load, LoadEvent::ActionsRegistered(4, Ok(())));
    assert_eq!(maa_destroy_resource(&mut state, text("a")), Ok(()));
    assert_eq!(state.resource(&text("a")), None);
    let action = step(&mut state, &mut load_of(&["base"]), LoadEvent::Begin);
    assert_eq!(action, LoadAction::CreateResource);
    assert_eq!(
        maa_destroy_resource(&mut state, text("b")),
        Err(text("Instance not found"))
    );
}
