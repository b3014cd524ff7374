//! Screenshots, and whether the controller that makes them is connected.

use vstd::prelude::*;

use base64::Engine;

use crate::connect::reply_view;
use crate::state::{MaaState, StateView};

verus! {

/// Whether a controller is connected.
#[derive(Debug, Clone, Copy, PartialEq, Eq)]
pub enum ConnectionStatus {
    Connected,
    Disconnected,
}

/// What a question for an instance's connection is answered.
pub open spec fn connection_answer<C, R, T>(
    s: StateView<C, R, T>,
    id: Seq<char>,
    connected: bool,
) -> Result<ConnectionStatus, Seq<char>> {
    if !s.instances.contains_key(id) {
        Err("Instance not found"@)
    } else if s.instances[id].controller is Some && connected {
        Ok(ConnectionStatus::Connected)
    } else {
        Ok(ConnectionStatus::Disconnected)
    }
}

/// The status of an instance's connection; `connected` is what the
/// controller, where there is one, says of itself.
pub fn maa_get_connection_status<C, R, T>(
    state: &MaaState<C, R, T>,
    instance_id: String,
    connected: bool,
) -> (result: Result<ConnectionStatus, String>)
    requires
        state.wf(),
    ensures
        match result {
            Ok(status) => state@.instances.contains_key(instance_id@) && status == (
            if state@.instances[instance_id@].controller is Some && connected {
                ConnectionStatus::Connected
            } else {
                ConnectionStatus::Disconnected
            }),
            Err(e) => !state@.instances.contains_key(instance_id@) && e@ == "Instance not found"@,
        },
        reply_view(result) == connection_answer(state@, instance_id@, connected),
{
    match state.instance(&instance_id) {
        Some(instance) => if instance.controller.is_some() && connected {
            Ok(ConnectionStatus::Connected)
        } else {
            Ok(ConnectionStatus::Disconnected)
        },
        None => Err("Instance not found".to_string()),
    }
}

/// What keeps an instance's controller from being asked, where something
/// does.
pub open spec fn controller_obstacle<C, R, T>(s: StateView<C, R, T>, id: Seq<char>) -> Option<
    Seq<char>,
> {
    if !s.instances.contains_key(id) {
        Some("Instance not found"@)
    } else if s.instances[id].controller is None {
        Some("Controller not connected"@)
    } else {
        None
    }
}

/// The controller that is to be asked.
pub fn find_controller<'a, C, R, T>(
    state: &'a MaaState<C, R, T>,
    instance_id: &String,
) -> (result: Result<&'a C, String>)
    requires
        state.wf(),
    ensures
        match result {
            Ok(controller) => controller_obstacle(state@, instance_id@) is None
                && state@.instances[instance_id@].controller == Some(*controller),
            Err(e) => controller_obstacle(state@, instance_id@) == Some(e@),
        },
{
    match state.instance(instance_id) {
        Some(instance) => match &instance.controller {
            Some(controller) => Ok(controller),
            None => Err("Controller not connected".to_string()),
        },
        None => Err("Instance not found".to_string()),
    }
}

/// The controller that is to make a screenshot.
pub fn maa_post_screencap<'a, C, R, T>(
    state: &'a MaaState<C, R, T>,
    instance_id: String,
) -> (result: Result<&'a C, String>)
    requires
        state.wf(),
    ensures
        match result {
            Ok(controller) => controller_obstacle(state@, instance_id@) is None
                && state@.instances[instance_id@].controller == Some(*controller),
            Err(e) => controller_obstacle(state@, instance_id@) == Some(e@),
        },
{
    find_controller(state, &instance_id)
}

/// The character of six bits in the standard base64 alphabet.
#[verifier::opaque]
pub open spec fn base64_char(bits: int) -> char {
    if bits < 26 {
        (65 + bits) as char
    } else if bits < 52 {
        (97 + (bits - 26)) as char
    } else if bits < 62 {
        (48 + (bits - 52)) as char
    } else if bits == 62 {
        '+'
    } else {
        '/'
    }
}

/// The base64 text of bytes: four characters for each three bytes, the last
/// ones padded.
pub open spec fn base64_text(data: Seq<u8>) -> Seq<char>
    decreases data.len(),
{
    if data.len() == 0 {
        Seq::empty()
    } else if data.len() == 1 {
        let n = data[0] * 16;
        seq![base64_char(n / 64), base64_char(n % 64), '=', '=']
    } else if data.len() == 2 {
        let n = (data[0] * 256 + data[1]) * 4;
        seq![base64_char(n / 4096), base64_char(n / 64 % 64), base64_char(n % 64), '=']
    } else {
        let n = data[0] * 65536 + data[1] * 256 + data[2];
        seq![
            base64_char(n / 262144),
            base64_char(n / 4096 % 64),
            base64_char(n / 64 % 64),
            base64_char(n % 64),
        ] + base64_text(data.skip(3))
    }
}

/// Whether the base64 text of that many bytes fits in a string.
pub open spec fn base64_fits(len: nat) -> bool {
    (len + 2) / 3 * 4 <= isize::MAX
}

/// `base64::engine::general_purpose::STANDARD.encode`: the text in the
/// standard alphabet, padded. It does not return where the text does not fit
/// in a string.
#[verifier::external_body]
fn base64_encode(data: &Vec<u8>) -> (text: String)
    requires
        base64_fits(data@.len()),
    ensures
        text@ == base64_text(data@),
{
    base64::engine::general_purpose::STANDARD.encode(data)
}

/// Whether an image is small enough to be handed out as a text.
pub fn image_fits(data: &Vec<u8>) -> (fits: bool)
    ensures
        fits == base64_fits(data@.len()),
{
    let len: u128 = data.len() as u128;
    (len + 2) / 3 * 4 <= isize::MAX as u128
}

/// The data URL of a PNG image.
pub open spec fn image_url(data: Seq<u8>) -> Seq<char> {
    "data:image/png;base64,"@ + base64_text(data)
}

/// What an image that was read from the controller is answered with.
pub open spec fn image_answer(image: Result<Option<Vec<u8>>, String>) -> Result<
    Seq<char>,
    Seq<char>,
> {
    match image {
        Err(e) => Err(e@),
        Ok(None) => Err("Failed to convert image buffer"@),
        Ok(Some(data)) => if data@.len() == 0 {
            Err("No image data available"@)
        } else {
            Ok(image_url(data@))
        },
    }
}

/// The last screenshot as a data URL; `image` is what the controller, where
/// there is one, has of it: the bytes, or nothing where they could not be
/// converted.
pub fn maa_get_cached_image<C, R, T>(
    state: &MaaState<C, R, T>,
    instance_id: String,
    image: Result<Option<Vec<u8>>, String>,
) -> (result: Result<String, String>)
    requires
        state.wf(),
        image matches Ok(Some(data)) ==> base64_fits(data@.len()),
    ensures
        match (controller_obstacle(state@, instance_id@), image_answer(image), result) {
            (Some(obstacle), _, Err(e)) => e@ == obstacle,
            (None, Err(error), Err(e)) => e@ == error,
            (None, Ok(url), Ok(answer)) => answer@ == url,
            _ => false,
        },
{
    match find_controller(state, &instance_id) {
        Ok(_) => {},
        Err(e) => {
            return Err(e);
        },
    }
    match image {
        Ok(Some(data)) => if data.len() == 0 {
            Err("No image data available".to_string())
        } else {
            Ok("data:image/png;base64,".to_string().concat(base64_encode(&data).as_str()))
        },
        Ok(None) => Err("Failed to convert image buffer".to_string()),
        Err(e) => Err(e),
    }
}

} // verus!
