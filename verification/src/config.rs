//! How a controller is reached: the key under which connected controllers
//! are shared.

use vstd::prelude::*;

use crate::table::Key;

verus! {

/// The configuration of a controller.
#[allow(inconsistent_fields)]
#[derive(Debug, PartialEq, Eq, Hash)]
pub enum ControllerConfig {
    Adb {
        adb_path: String,
        address: String,
        screencap_methods: String,
        input_methods: String,
        config: String,
    },
    Win32 { handle: u64, screencap_method: u64, mouse_method: u64, keyboard_method: u64 },
    PlayCover { address: String, uuid: Option<String> },
    Gamepad { handle: u64, gamepad_type: Option<String>, screencap_method: Option<u64> },
}

/// What a configuration says.
#[allow(inconsistent_fields)]
pub enum ConfigView {
    Adb {
        adb_path: Seq<char>,
        address: Seq<char>,
        screencap_methods: Seq<char>,
        input_methods: Seq<char>,
        config: Seq<char>,
    },
    Win32 { handle: u64, screencap_method: u64, mouse_method: u64, keyboard_method: u64 },
    PlayCover { address: Seq<char>, uuid: Option<Seq<char>> },
    Gamepad { handle: u64, gamepad_type: Option<Seq<char>>, screencap_method: Option<u64> },
}

/// The text that an optional string holds.
pub open spec fn opt_text(text: Option<String>) -> Option<Seq<char>> {
    match text {
        Some(t) => Some(t@),
        None => None,
    }
}

impl View for ControllerConfig {
    type V = ConfigView;

    open spec fn view(&self) -> ConfigView {
        match self {
            ControllerConfig::Adb {
                adb_path,
                address,
                screencap_methods,
                input_methods,
                config,
            } => ConfigView::Adb {
                adb_path: adb_path@,
                address: address@,
                screencap_methods: screencap_methods@,
                input_methods: input_methods@,
                config: config@,
            },
            ControllerConfig::Win32 {
                handle,
                screencap_method,
                mouse_method,
                keyboard_method,
            } => ConfigView::Win32 {
                handle: *handle,
                screencap_method: *screencap_method,
                mouse_method: *mouse_method,
                keyboard_method: *keyboard_method,
            },
            ControllerConfig::PlayCover { address, uuid } => ConfigView::PlayCover {
                address: address@,
                uuid: opt_text(*uuid),
            },
            ControllerConfig::Gamepad { handle, gamepad_type, screencap_method } =>
                ConfigView::Gamepad {
                handle: *handle,
                gamepad_type: opt_text(*gamepad_type),
                screencap_method: *screencap_method,
            },
        }
    }
}

fn same_opt_text(a: &Option<String>, b: &Option<String>) -> (same: bool)
    ensures
        same == (opt_text(*a) == opt_text(*b)),
{
    match (a, b) {
        (Some(a), Some(b)) => *a == *b,
        (None, None) => true,
        _ => false,
    }
}

fn same_opt_number(a: Option<u64>, b: Option<u64>) -> (same: bool)
    ensures
        same == (a == b),
{
    match (a, b) {
        (Some(a), Some(b)) => a == b,
        (None, None) => true,
        _ => false,
    }
}

/// A copy of an optional string.
fn copy_opt_text(text: &Option<String>) -> (copy: Option<String>)
    ensures
        opt_text(copy) == opt_text(*text),
{
    match text {
        Some(t) => Some(t.clone()),
        None => None,
    }
}

impl Key for ControllerConfig {
    fn same(&self, other: &Self) -> (same: bool) {
        match (self, other) {
            (
                ControllerConfig::Adb {
                    adb_path: p1,
                    address: a1,
                    screencap_methods: s1,
                    input_methods: i1,
                    config: c1,
                },
                ControllerConfig::Adb {
                    adb_path: p2,
                    address: a2,
                    screencap_methods: s2,
                    input_methods: i2,
                    config: c2,
                },
            ) => *p1 == *p2 && *a1 == *a2 && *s1 == *s2 && *i1 == *i2 && *c1 == *c2,
            (
                ControllerConfig::Win32 {
                    handle: h1,
                    screencap_method: s1,
                    mouse_method: m1,
                    keyboard_method: k1,
                },
                ControllerConfig::Win32 {
                    handle: h2,
                    screencap_method: s2,
                    mouse_method: m2,
                    keyboard_method: k2,
                },
            ) => *h1 == *h2 && *s1 == *s2 && *m1 == *m2 && *k1 == *k2,
            (
                ControllerConfig::PlayCover { address: a1, uuid: u1 },
                ControllerConfig::PlayCover { address: a2, uuid: u2 },
            ) => *a1 == *a2 && same_opt_text(u1, u2),
            (
                ControllerConfig::Gamepad { handle: h1, gamepad_type: g1, screencap_method: s1 },
                ControllerConfig::Gamepad { handle: h2, gamepad_type: g2, screencap_method: s2 },
            ) => *h1 == *h2 && same_opt_text(g1, g2) && same_opt_number(*s1, *s2),
            _ => false,
        }
    }
}

impl Clone for ControllerConfig {
    fn clone(&self) -> (copy: Self)
        ensures
            copy@ == self@,
    {
        match self {
            ControllerConfig::Adb {
                adb_path,
                address,
                screencap_methods,
                input_methods,
                config,
            } => ControllerConfig::Adb {
                adb_path: adb_path.clone(),
                address: address.clone(),
                screencap_methods: screencap_methods.clone(),
                input_methods: input_methods.clone(),
                config: config.clone(),
            },
            ControllerConfig::Win32 {
                handle,
                screencap_method,
                mouse_method,
                keyboard_method,
            } => ControllerConfig::Win32 {
                handle: *handle,
                screencap_method: *screencap_method,
                mouse_method: *mouse_method,
                keyboard_method: *keyboard_method,
            },
            ControllerConfig::PlayCover { address, uuid } => ControllerConfig::PlayCover {
                address: address.clone(),
                uuid: copy_opt_text(uuid),
            },
            ControllerConfig::Gamepad { handle, gamepad_type, screencap_method } =>
                ControllerConfig::Gamepad {
                handle: *handle,
                gamepad_type: copy_opt_text(gamepad_type),
                screencap_method: *screencap_method,
            },
        }
    }
}

} // verus!
