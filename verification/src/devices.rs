//! What a search for devices and windows finds.

use vstd::prelude::*;

use crate::config::opt_text;
use crate::state::{MaaState, StateView};
use crate::text::has_part;

verus! {

/// An ADB device.
#[derive(Debug, PartialEq, Eq)]
pub struct AdbDevice {
    pub name: String,
    pub adb_path: String,
    pub address: String,
    pub screencap_methods: u64,
    pub input_methods: u64,
    pub config: String,
}

/// A desktop window.
#[derive(Debug, PartialEq, Eq)]
pub struct Win32Window {
    pub handle: u64,
    pub class_name: String,
    pub window_name: String,
}

/// What is known of a device.
pub struct AdbDeviceView {
    pub name: Seq<char>,
    pub adb_path: Seq<char>,
    pub address: Seq<char>,
    pub screencap_methods: u64,
    pub input_methods: u64,
    pub config: Seq<char>,
}

/// What is known of a window.
pub struct WindowView {
    pub handle: u64,
    pub class_name: Seq<char>,
    pub window_name: Seq<char>,
}

impl View for AdbDevice {
    type V = AdbDeviceView;

    open spec fn view(&self) -> AdbDeviceView {
        AdbDeviceView {
            name: self.name@,
            adb_path: self.adb_path@,
            address: self.address@,
            screencap_methods: self.screencap_methods,
            input_methods: self.input_methods,
            config: self.config@,
        }
    }
}

impl View for Win32Window {
    type V = WindowView;

    open spec fn view(&self) -> WindowView {
        WindowView {
            handle: self.handle,
            class_name: self.class_name@,
            window_name: self.window_name@,
        }
    }
}

impl Clone for AdbDevice {
    fn clone(&self) -> (copy: Self)
        ensures
            copy@ == self@,
    {
        AdbDevice {
            name: self.name.clone(),
            adb_path: self.adb_path.clone(),
            address: self.address.clone(),
            screencap_methods: self.screencap_methods,
            input_methods: self.input_methods,
            config: self.config.clone(),
        }
    }
}

impl Clone for Win32Window {
    fn clone(&self) -> (copy: Self)
        ensures
            copy@ == self@,
    {
        Win32Window {
            handle: self.handle,
            class_name: self.class_name.clone(),
            window_name: self.window_name.clone(),
        }
    }
}

/// What is known of each device of a list.
pub open spec fn device_views(devices: Seq<AdbDevice>) -> Seq<AdbDeviceView> {
    devices.map_values(|d: AdbDevice| d@)
}

/// What is known of each window of a list.
pub open spec fn window_views(windows: Seq<Win32Window>) -> Seq<WindowView> {
    windows.map_values(|w: Win32Window| w@)
}

/// A copy of a list of devices.
fn copy_devices(devices: &Vec<AdbDevice>) -> (copy: Vec<AdbDevice>)
    ensures
        device_views(copy@) == device_views(devices@),
{
    let mut copy: Vec<AdbDevice> = Vec::new();
    for i in 0..devices.len()
        invariant
            copy@.len() == i,
            forall|j: int| 0 <= j < i ==> (#[trigger] copy@[j])@ == devices@[j]@,
    {
        copy.push(devices[i].clone());
    }
    assert(device_views(copy@) =~= device_views(devices@));
    copy
}

/// A copy of a list of windows.
fn copy_windows(windows: &Vec<Win32Window>) -> (copy: Vec<Win32Window>)
    ensures
        window_views(copy@) == window_views(windows@),
{
    let mut copy: Vec<Win32Window> = Vec::new();
    for i in 0..windows.len()
        invariant
            copy@.len() == i,
            forall|j: int| 0 <= j < i ==> (#[trigger] copy@[j])@ == windows@[j]@,
    {
        copy.push(windows[i].clone());
    }
    assert(window_views(copy@) =~= window_views(windows@));
    copy
}

/// What a search for devices found, or why it failed.
pub open spec fn found_devices(found: Result<Vec<AdbDevice>, String>) -> Result<
    Seq<AdbDeviceView>,
    Seq<char>,
> {
    match found {
        Ok(devices) => Ok(device_views(devices@)),
        Err(e) => Err(e@),
    }
}

/// What a search for windows found, or why it failed.
pub open spec fn found_windows(found: Result<Vec<Win32Window>, String>) -> Result<
    Seq<WindowView>,
    Seq<char>,
> {
    match found {
        Ok(windows) => Ok(window_views(windows@)),
        Err(e) => Err(e@),
    }
}

/// The state after a search for devices, and its answer.
pub open spec fn after_device_search<C, R, T>(
    s: StateView<C, R, T>,
    found: Result<Seq<AdbDeviceView>, Seq<char>>,
) -> (StateView<C, R, T>, Result<Seq<AdbDeviceView>, Seq<char>>) {
    match found {
        Ok(devices) => (StateView { cached_adb_devices: devices, ..s }, found),
        Err(_) => (s, found),
    }
}

/// Answers a search for devices, and keeps what it found. A search that
/// failed keeps what was found before.
pub fn maa_find_adb_devices<C, R, T>(
    state: &mut MaaState<C, R, T>,
    found: Result<Vec<AdbDevice>, String>,
) -> (result: Result<Vec<AdbDevice>, String>)
    requires
        old(state).wf(),
    ensures
        final(state).wf(),
        match (found, result) {
            (Ok(devices), Ok(answer)) => device_views(answer@) == device_views(devices@)
                && final(state)@ == (StateView {
                cached_adb_devices: device_views(devices@),
                ..old(state)@
            }),
            (Err(e), Err(message)) => message@ == e@ && final(state)@ == old(state)@,
            _ => false,
        },
        (final(state)@, found_devices(result)) == after_device_search(
            old(state)@,
            found_devices(found),
        ),
{
    match found {
        Ok(devices) => {
            state.cached_adb_devices = copy_devices(&devices);
            Ok(devices)
        },
        Err(e) => Err(e),
    }
}

#[verifier::external_type_specification]
#[verifier::external_body]
pub struct ExRegex(regex::Regex);

/// What a regex was made from: the expression, for one of `Regex::new`.
pub uninterp spec fn regex_source(regex: regex::Regex) -> Seq<char>;

/// Whether `Regex::new` compiles an expression.
pub uninterp spec fn regex_compiles(expression: Seq<char>) -> bool;

/// Whether `Regex::is_match` finds a match of an expression in a text.
pub uninterp spec fn regex_matches(expression: Seq<char>, text: Seq<char>) -> bool;

/// An expression that stands for itself: letters and digits, and not so many
/// that the limit on a regex's size could matter.
pub open spec fn is_literal(expression: Seq<char>) -> bool {
    expression.len() <= 1000 && forall|i: int|
        0 <= i < expression.len() ==> ('a' <= #[trigger] expression[i] <= 'z' || 'A'
            <= expression[i] <= 'Z' || '0' <= expression[i] <= '9')
}

/// `Regex::new`: whether there is a regex is a function of the expression,
/// and the regex keeps the expression. An expression that stands for itself
/// is one.
#[verifier::external_body]
fn compile_regex(expression: &str) -> (regex: Option<regex::Regex>)
    ensures
        match regex {
            Some(re) => regex_compiles(expression@) && regex_source(re) == expression@,
            None => !regex_compiles(expression@),
        },
        is_literal(expression@) ==> regex is Some,
{
    regex::Regex::new(expression).ok()
}

/// `Regex::is_match`: a function of the expression and the text. An
/// expression that stands for itself is found where it is a part of the text.
#[verifier::external_body]
fn regex_is_match(regex: &regex::Regex, text: &str) -> (matches: bool)
    ensures
        matches == regex_matches(regex_source(*regex), text@),
        is_literal(regex_source(*regex)) ==> matches == has_part(text@, regex_source(*regex)),
{
    regex.is_match(text)
}

/// Whether a text passes a filter. No filter, and one that does not compile,
/// let everything pass.
pub open spec fn passes(filter: Option<Seq<char>>, text: Seq<char>) -> bool {
    match filter {
        Some(expression) if regex_compiles(expression) => regex_matches(expression, text),
        _ => true,
    }
}

/// Whether a filter, where there is one, stands for itself.
pub open spec fn is_plain(filter: Option<Seq<char>>) -> bool {
    match filter {
        Some(expression) => is_literal(expression),
        None => true,
    }
}

/// Whether a text passes a filter that stands for itself.
pub open spec fn has_word(filter: Option<Seq<char>>, text: Seq<char>) -> bool {
    match filter {
        Some(expression) => has_part(text, expression),
        None => true,
    }
}

/// Whether a window is kept.
pub open spec fn keeps_window(
    class_filter: Option<Seq<char>>,
    window_filter: Option<Seq<char>>,
    window: WindowView,
) -> bool {
    passes(class_filter, window.class_name) && passes(window_filter, window.window_name)
}

/// The windows that both filters let pass, in the order they were found.
pub open spec fn kept_windows(
    class_filter: Option<Seq<char>>,
    window_filter: Option<Seq<char>>,
    windows: Seq<WindowView>,
) -> Seq<WindowView> {
    windows.filter(|w: WindowView| keeps_window(class_filter, window_filter, w))
}

/// The windows that have both words, in the order they were found.
pub open spec fn windows_with_words(
    class_filter: Option<Seq<char>>,
    window_filter: Option<Seq<char>>,
    windows: Seq<WindowView>,
) -> Seq<WindowView> {
    windows.filter(
        |w: WindowView| has_word(class_filter, w.class_name) && has_word(
            window_filter,
            w.window_name,
        ),
    )
}

/// A filter that was compiled, or nothing where it lets everything pass.
spec fn is_compiled(filter: Option<Seq<char>>, regex: Option<regex::Regex>) -> bool {
    match regex {
        Some(re) => filter == Some(regex_source(re)) && regex_compiles(regex_source(re)),
        None => filter is None || (!regex_compiles(filter->0) && !is_literal(filter->0)),
    }
}

fn compile_filter(filter: &Option<String>) -> (regex: Option<regex::Regex>)
    ensures
        is_compiled(opt_text(*filter), regex),
{
    match filter {
        Some(expression) => compile_regex(expression.as_str()),
        None => None,
    }
}

fn filter_passes(
    regex: &Option<regex::Regex>,
    text: &String,
    Ghost(filter): Ghost<Option<Seq<char>>>,
) -> (passed: bool)
    requires
        is_compiled(filter, *regex),
    ensures
        passed == passes(filter, text@),
        is_plain(filter) ==> passed == has_word(filter, text@),
{
    match regex {
        Some(re) => regex_is_match(re, text.as_str()),
        None => true,
    }
}

/// Picks the windows that both filters let pass.
pub fn filter_windows(
    windows: &Vec<Win32Window>,
    class_regex: &Option<String>,
    window_regex: &Option<String>,
) -> (kept: Vec<Win32Window>)
    ensures
        window_views(kept@) == kept_windows(
            opt_text(*class_regex),
            opt_text(*window_regex),
            window_views(windows@),
        ),
        is_plain(opt_text(*class_regex)) && is_plain(opt_text(*window_regex)) ==> window_views(kept@)
            == windows_with_words(
            opt_text(*class_regex),
            opt_text(*window_regex),
            window_views(windows@),
        ),
{
    let ghost class_filter = opt_text(*class_regex);
    let ghost window_filter = opt_text(*window_regex);
    let ghost keeps = |w: WindowView| keeps_window(class_filter, window_filter, w);
    let ghost plain = is_plain(class_filter) && is_plain(window_filter);
    let ghost has_words = |w: WindowView|
        has_word(class_filter, w.class_name) && has_word(window_filter, w.window_name);
    let class_re = compile_filter(class_regex);
    let window_re = compile_filter(window_regex);
    let mut kept: Vec<Win32Window> = Vec::new();
    proof {
        assert(window_views(windows@).take(0) =~= Seq::empty());
        assert(window_views(kept@) =~= Seq::empty());
        reveal(Seq::filter);
    }
    for i in 0..windows.len()
        invariant
            is_compiled(class_filter, class_re),
            is_compiled(window_filter, window_re),
            keeps == (|w: WindowView| keeps_window(class_filter, window_filter, w)),
            plain == (is_plain(class_filter) && is_plain(window_filter)),
            has_words == (|w: WindowView|
                has_word(class_filter, w.class_name) && has_word(window_filter, w.window_name)),
            window_views(kept@) == window_views(windows@).take(i as int).filter(keeps),
            plain ==> window_views(kept@) == window_views(windows@).take(i as int).filter(
                has_words,
            ),
    {
        let window = &windows[i];
        let ghost before = kept@;
        proof {
            reveal(Seq::filter);
            let seen = window_views(windows@).take(i + 1);
            assert(seen.drop_last() =~= window_views(windows@).take(i as int));
            assert(seen.last() == window@);
        }
        if filter_passes(&class_re, &window.class_name, Ghost(class_filter)) && filter_passes(
            &window_re,
            &window.window_name,
            Ghost(window_filter),
        ) {
            kept.push(window.clone());
            assert(window_views(kept@) =~= window_views(before).push(window@));
        }
    }
    assert(window_views(windows@).take(windows@.len() as int) =~= window_views(windows@));
    kept
}

/// The state after a search for windows, and its answer.
pub open spec fn after_window_search<C, R, T>(
    s: StateView<C, R, T>,
    found: Result<Seq<WindowView>, Seq<char>>,
    class_filter: Option<Seq<char>>,
    window_filter: Option<Seq<char>>,
) -> (StateView<C, R, T>, Result<Seq<WindowView>, Seq<char>>) {
    match found {
        Ok(windows) => {
            let kept = kept_windows(class_filter, window_filter, windows);
            (StateView { cached_win32_windows: kept, ..s }, Ok(kept))
        },
        Err(_) => (s, found),
    }
}

/// Answers a search for windows with those that both expressions let pass,
/// and keeps them. A search that failed keeps what was found before.
pub fn maa_find_win32_windows<C, R, T>(
    state: &mut MaaState<C, R, T>,
    found: Result<Vec<Win32Window>, String>,
    class_regex: Option<String>,
    window_regex: Option<String>,
) -> (result: Result<Vec<Win32Window>, String>)
    requires
        old(state).wf(),
    ensures
        final(state).wf(),
        match (found, result) {
            (Ok(windows), Ok(answer)) => {
                let kept = kept_windows(
                    opt_text(class_regex),
                    opt_text(window_regex),
                    window_views(windows@),
                );
                &&& window_views(answer@) == kept
                &&& is_plain(opt_text(class_regex)) && is_plain(opt_text(window_regex)) ==> kept
                    == windows_with_words(
                    opt_text(class_regex),
                    opt_text(window_regex),
                    window_views(windows@),
                )
                &&& final(state)@ == (StateView { cached_win32_windows: kept, ..old(state)@ })
            },
            (Err(e), Err(message)) => message@ == e@ && final(state)@ == old(state)@,
            _ => false,
        },
        (final(state)@, found_windows(result)) == after_window_search(
            old(state)@,
            found_windows(found),
            opt_text(class_regex),
            opt_text(window_regex),
        ),
{
    match found {
        Ok(windows) => {
            let kept = filter_windows(&windows, &class_regex, &window_regex);
            state.cached_win32_windows = copy_windows(&kept);
            Ok(kept)
        },
        Err(e) => Err(e),
    }
}

} // verus!
