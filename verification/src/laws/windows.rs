//! Which windows and devices a search hands out.

use vstd::prelude::*;

use crate::devices::{
    after_device_search, after_window_search, device_views, found_devices, found_windows,
    kept_windows, regex_compiles, regex_matches, window_views, windows_with_words, AdbDevice,
    Win32Window, WindowView,
};
use crate::state::StateView;
use crate::text::has_part;

verus! {

/// A single window is kept exactly when its class matches the expression for
/// classes and its name the one for names, each where there is such an
/// expression and it compiles.
pub proof fn law_windows_are_kept_by_class_and_name(
    class_filter: Option<Seq<char>>,
    window_filter: Option<Seq<char>>,
    window: WindowView,
)
    ensures
        ({
            let class_fails = class_filter matches Some(c) && regex_compiles(c) && !regex_matches(
                c,
                window.class_name,
            );
            let name_fails = window_filter matches Some(n) && regex_compiles(n) && !regex_matches(
                n,
                window.window_name,
            );
            kept_windows(class_filter, window_filter, seq![window]) == if class_fails || name_fails {
                Seq::<WindowView>::empty()
            } else {
                seq![window]
            }
        }),
{
    reveal_with_fuel(Seq::filter, 3);
    assert(seq![window].drop_last() =~= Seq::<WindowView>::empty());
    assert(Seq::<WindowView>::empty().push(window) =~= seq![window]);
}

/// Of two lists of windows, one behind the other, those of the first are kept
/// first, and whether a window is kept does not depend on the others. So all
/// that pass are kept, as often as they were found, and in that order.
pub proof fn law_windows_are_kept_in_order(
    class_filter: Option<Seq<char>>,
    window_filter: Option<Seq<char>>,
    first: Seq<WindowView>,
    second: Seq<WindowView>,
)
    ensures
        kept_windows(class_filter, window_filter, first + second) == kept_windows(
            class_filter,
            window_filter,
            first,
        ) + kept_windows(class_filter, window_filter, second),
    decreases second.len(),
{
    reveal(Seq::filter);
    if second.len() == 0 {
        assert(first + second =~= first);
        assert(kept_windows(class_filter, window_filter, second) =~= Seq::empty());
    } else {
        let rest = second.drop_last();
        law_windows_are_kept_in_order(class_filter, window_filter, first, rest);
        assert((first + second).drop_last() =~= first + rest);
        assert((first + second).last() == second.last());
        let kept = kept_windows(class_filter, window_filter, first);
        let more = kept_windows(class_filter, window_filter, rest);
        assert((kept + more).push(second.last()) =~= kept + more.push(second.last()));
    }
}

/// A single window is kept by words exactly when its class holds the one and
/// its name the other, each where there is such a word.
pub proof fn law_words_keep_windows(
    class_word: Option<Seq<char>>,
    window_word: Option<Seq<char>>,
    window: WindowView,
)
    ensures
        ({
            let class_fails = class_word matches Some(c) && !has_part(window.class_name, c);
            let name_fails = window_word matches Some(n) && !has_part(window.window_name, n);
            windows_with_words(class_word, window_word, seq![window]) == if class_fails
                || name_fails {
                Seq::<WindowView>::empty()
            } else {
                seq![window]
            }
        }),
{
    reveal_with_fuel(Seq::filter, 3);
    assert(seq![window].drop_last() =~= Seq::<WindowView>::empty());
    assert(Seq::<WindowView>::empty().push(window) =~= seq![window]);
}

/// A search for devices answers with all that was found, as it was found, and
/// keeps just that in place of what was kept. One that failed answers with its
/// own words and keeps what was kept. Nothing else changes.
pub proof fn law_device_searches<C, R, T>(
    s: StateView<C, R, T>,
    t: StateView<C, R, T>,
    found: Result<Vec<AdbDevice>, String>,
    result: Result<Vec<AdbDevice>, String>,
    i: int,
)
    requires
        (t, found_devices(result)) == after_device_search(s, found_devices(found)),
    ensures
        found is Ok <==> result is Ok,
        found matches Ok(devices) ==> (result matches Ok(answer) && answer@.len() == devices@.len()
            && t.cached_adb_devices.len() == devices@.len() && (0 <= i < devices@.len() ==> {
            &&& answer@[i]@ == devices@[i]@
            &&& t.cached_adb_devices[i] == devices@[i]@
        })),
        found matches Err(e) ==> (result matches Err(message) && message@ == e@
            && t.cached_adb_devices == s.cached_adb_devices),
        t.instances == s.instances,
        t.controller_pool == s.controller_pool,
        t.next_conn_id == s.next_conn_id,
        t.lib_dir == s.lib_dir,
        t.resource_dir == s.resource_dir,
        t.cached_win32_windows == s.cached_win32_windows,
{
    if let (Ok(devices), Ok(answer)) = (found, result) {
        assert(device_views(answer@).len() == device_views(devices@).len());
        if 0 <= i < devices@.len() {
            assert(device_views(answer@)[i] == device_views(devices@)[i]);
        }
    }
}

/// A search for windows answers with those that were found and that its two
/// expressions let pass, and keeps just these in place of what was kept. One
/// that failed answers with its own words and keeps what was kept. Nothing
/// else changes.
pub proof fn law_window_searches<C, R, T>(
    s: StateView<C, R, T>,
    t: StateView<C, R, T>,
    found: Result<Vec<Win32Window>, String>,
    class_filter: Option<Seq<char>>,
    window_filter: Option<Seq<char>>,
    result: Result<Vec<Win32Window>, String>,
    window: WindowView,
)
    requires
        (t, found_windows(result)) == after_window_search(
            s,
            found_windows(found),
            class_filter,
            window_filter,
        ),
    ensures
        found is Ok <==> result is Ok,
        found matches Ok(windows) ==> (result matches Ok(answer) && {
            &&& t.cached_win32_windows == window_views(answer@)
            &&& window_views(answer@) == kept_windows(
                class_filter,
                window_filter,
                window_views(windows@),
            )
            &&& window_views(answer@).contains(window) <==> {
                &&& window_views(windows@).contains(window)
                &&& class_filter matches Some(c) ==> regex_compiles(c) ==> regex_matches(
                    c,
                    window.class_name,
                )
                &&& window_filter matches Some(n) ==> regex_compiles(n) ==> regex_matches(
                    n,
                    window.window_name,
                )
            }
        }),
        found matches Err(e) ==> (result matches Err(message) && message@ == e@
            && t.cached_win32_windows == s.cached_win32_windows),
        t.instances == s.instances,
        t.controller_pool == s.controller_pool,
        t.next_conn_id == s.next_conn_id,
        t.lib_dir == s.lib_dir,
        t.resource_dir == s.resource_dir,
        t.cached_adb_devices == s.cached_adb_devices,
{
    if let Ok(windows) = found {
        crate::laws::law_kept_windows_pass(
            class_filter,
            window_filter,
            window_views(windows@),
            window,
        );
    }
}

/// What is said of windows is what they are, one by one.
pub proof fn law_windows_say_what_they_are(windows: Seq<Win32Window>, i: int)
    requires
        0 <= i < windows.len(),
    ensures
        window_views(windows).len() == windows.len(),
        window_views(windows)[i].handle == windows[i].handle,
        window_views(windows)[i].class_name == windows[i].class_name@,
        window_views(windows)[i].window_name == windows[i].window_name@,
{
}

/// What is said of devices is what they are, one by one.
pub proof fn law_devices_say_what_they_are(devices: Seq<AdbDevice>, i: int)
    requires
        0 <= i < devices.len(),
    ensures
        device_views(devices).len() == devices.len(),
        device_views(devices)[i].name == devices[i].name@,
        device_views(devices)[i].adb_path == devices[i].adb_path@,
        device_views(devices)[i].address == devices[i].address@,
        device_views(devices)[i].screencap_methods == devices[i].screencap_methods,
        device_views(devices)[i].input_methods == devices[i].input_methods,
        device_views(devices)[i].config == devices[i].config@,
{
}

} // verus!
