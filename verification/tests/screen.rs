//! Screenshots and connections.

use maa_core::config::ControllerConfig;
use maa_core::screen::{
    image_fits, maa_get_cached_image, maa_get_connection_status, maa_post_screencap,
    ConnectionStatus,
};
use maa_core::state::{maa_create_instance, update_instance_controller, MaaState};

fn text(t: &str) -> String {
    t.to_string()
}

/// The instance `a` has a controller, `b` has none.
fn some_state() -> MaaState<u32, u32, u32> {
    let mut state = MaaState::new();
    let config = ControllerConfig::PlayCover { address: text("x"), uuid: None };
    assert_eq!(maa_create_instance(&mut state, text("a")), Ok(()));
    assert_eq!(maa_create_instance(&mut state, text("b")), Ok(()));
    assert_eq!(update_instance_controller(&mut state, &text("a"), 1, config), Ok(()));
    state
}

fn image(data: &[u8]) -> Result<String, String> {
    let data = data.to_vec();
    assert!(image_fits(&data));
    maa_get_cached_image(&some_state(), text("a"), Ok(Some(data)))
}

#[test]
fn only_a_controller_is_connected() {
    let state = some_state();
    let status = |name: &str, connected: bool| {
        maa_get_connection_status(&state, text(name), connected)
    };
    assert_eq!(status("a", true), Ok(ConnectionStatus::Connected));
    assert_eq!(status("a", false), Ok(ConnectionStatus::Disconnected));
    assert_eq!(status("b", true), Ok(ConnectionStatus::Disconnected));
    assert_eq!(status("c", true), Err(text("Instance not found")));
}

#[test]
fn a_screenshot_is_asked_of_the_controller() {
    let state = some_state();
    assert_eq!(maa_post_screencap(&state, text("a")), Ok(&1));
    assert_eq!(maa_post_screencap(&state, text("b")), Err(text("Controller not connected")));
    assert_eq!(maa_post_screencap(&state, text("c")), Err(text("Instance not found")));
}

#[test]
fn an_image_is_a_data_url() {
    assert_eq!(image(b"M"), Ok(text("data:image/png;base64,TQ==")));
    assert_eq!(image(b"Ma"), Ok(text("data:image/png;base64,TWE=")));
    assert_eq!(image(b"Man"), Ok(text("data:image/png;base64,TWFu")));
    assert_eq!(image(b"\x89PNG\r\n\x1a\n"), Ok(text("data:image/png;base64,iVBORw0KGgo=")));
    assert_eq!(image(&[0xfb, 0xff, 0xfe, 0x00]), Ok(text("data:image/png;base64,+//+AA==")));
}

#[test]
fn different_images_have_different_urls() {
    let images: [&[u8]; 5] = [&[0], &[0, 0], &[0, 0, 0], &[1], &[0, 1]];
    for (i, a) in images.iter().enumerate() {
        for (j, b) in images.iter().enumerate() {
            assert_eq!(i == j, image(a) == image(b));
        }
    }
}

#[test]
fn an_image_that_is_not_there_is_an_error() {
    let state = some_state();
    let answer = |reply: Result<Option<Vec<u8>>, String>| {
        maa_get_cached_image(&state, text("a"), reply)
    };
    assert_eq!(answer(Ok(Some(vec![]))), Err(text("No image data available")));
    assert_eq!(answer(Ok(None)), Err(text("Failed to convert image buffer")));
    assert_eq!(answer(Err(text("no image"))), Err(text("no image")));
}

#[test]
fn an_image_needs_a_controller() {
    let state = some_state();
    assert_eq!(
        maa_get_cached_image(&state, text("b"), Ok(Some(vec![1]))),
        Err(text("Controller not connected"))
    );
    assert_eq!(
        maa_get_cached_image(&state, text("c"), Err(text("unused"))),
        Err(text("Instance not found"))
    );
}
