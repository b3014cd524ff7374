//! Which library an initialisation and a version check load.

use vstd::prelude::*;

use crate::library::{
    after_set_resource_dir, check_step, dir_of, init_step, library_name, CheckAction, CheckEvent, InitAction, InitEvent,
    Platform,
};
use crate::state::StateView;
use crate::text::{file_path, has_part, is_file_name, is_plain_dir};

verus! {

/// Whether a path leads to a file of this name in a directory: the directory,
/// at most one separator, and the name.
pub open spec fn leads_to(path: Seq<char>, dir: Seq<char>, name: Seq<char>) -> bool {
    ||| path == dir + name
    ||| path == dir + seq!['/'] + name
    ||| path == dir + seq!['\\'] + name
}

/// Whether a directory is a verbatim one, which one platform may write anew.
pub open spec fn may_be_rewritten(dir: Seq<char>) -> bool {
    dir.len() >= 4 && dir.take(4) == seq!['\\', '\\', '?', '\\']
}

/// Whether the library at a path is the one that this name stands for in a
/// directory.
pub open spec fn is_named(library: Seq<char>, dir: Seq<char>, name: Seq<char>) -> bool {
    &&& name.is_suffix_of(library)
    &&& !may_be_rewritten(dir) ==> leads_to(library, dir, name)
}

proof fn lemma_path_is_named(library: Seq<char>, dir: Seq<char>, name: Seq<char>)
    requires
        crate::text::is_path_in(library, dir, name),
    ensures
        is_named(library, dir, name),
{
    if !may_be_rewritten(dir) {
        if crate::text::is_verbatim(dir) {
            assert(dir.take(4) =~= seq!['\\', '\\', '?', '\\']);
        }
        let sep = choose|sep: Seq<char>| #[trigger]
            crate::text::is_separator(dir, sep) && library == dir + sep + name;
        if sep.len() == 0 {
            assert(dir + sep + name =~= dir + name);
        }
    }
}

/// An initialisation from a directory keeps that directory and loads the
/// library in it that has the name of the platform; a version check right
/// after it loads one of that name, too. Only Windows is told the directory.
pub proof fn law_directories_hold_the_library<C, R, T>(
    s: StateView<C, R, T>,
    t: StateView<C, R, T>,
    platform: Platform,
    path: String,
    action: InitAction,
    check_action: CheckAction,
)
    requires
        init_step(
            s,
            platform,
            InitEvent::Probed { path, exists: true, is_file: false },
            t,
            action,
        ),
        check_step(t.lib_dir, platform, CheckEvent::Begin, check_action),
    ensures
        ({
            &&& action matches InitAction::Load { dll_directory, library }
            &&& check_action matches CheckAction::Load(checked)
            &&& t.lib_dir == Some(path@)
            &&& platform == Platform::Windows ==> {
                &&& is_named(library@, path@, "MaaFramework.dll"@)
                &&& is_named(checked@, path@, "MaaFramework.dll"@)
                &&& dll_directory matches Some(dir) && dir@ == path@
            }
            &&& platform == Platform::MacOs ==> {
                &&& is_named(library@, path@, "libMaaFramework.dylib"@)
                &&& is_named(checked@, path@, "libMaaFramework.dylib"@)
                &&& dll_directory is None
            }
            &&& platform == Platform::Linux ==> {
                &&& is_named(library@, path@, "libMaaFramework.so"@)
                &&& is_named(checked@, path@, "libMaaFramework.so"@)
                &&& dll_directory is None
            }
        }),
{
    let name = match platform {
        Platform::Windows => "MaaFramework.dll"@,
        Platform::MacOs => "libMaaFramework.dylib"@,
        Platform::Linux => "libMaaFramework.so"@,
    };
    lemma_path_is_named(action->library@, path@, name);
    lemma_path_is_named(check_action->Load_0@, path@, name);
}

/// Where a library is kept in a directory, a version check loads the file
/// with the platform's name in it, and where none is known it loads nothing.
pub proof fn law_checks_load_from_the_directory(
    lib_dir: Option<Seq<char>>,
    platform: Platform,
    action: CheckAction,
)
    requires
        check_step(lib_dir, platform, CheckEvent::Begin, action),
    ensures
        lib_dir is None ==> action is ReadVersion,
        lib_dir matches Some(dir) ==> (action matches CheckAction::Load(library) && {
            &&& platform == Platform::Windows ==> is_named(library@, dir, "MaaFramework.dll"@)
            &&& platform == Platform::MacOs ==> is_named(library@, dir, "libMaaFramework.dylib"@)
            &&& platform == Platform::Linux ==> is_named(library@, dir, "libMaaFramework.so"@)
        }),
{
    if let Some(dir) = lib_dir {
        let name = match platform {
            Platform::Windows => "MaaFramework.dll"@,
            Platform::MacOs => "libMaaFramework.dylib"@,
            Platform::Linux => "libMaaFramework.so"@,
        };
        lemma_path_is_named(action->Load_0@, dir, name);
    }
}

/// The name of the library on each platform.
pub proof fn law_library_names()
    ensures
        library_name(Platform::Windows) == "MaaFramework.dll"@,
        library_name(Platform::MacOs) == "libMaaFramework.dylib"@,
        library_name(Platform::Linux) == "libMaaFramework.so"@,
{
}

/// An initialisation from a file loads that file, whatever its name, and
/// keeps the directory that it is in: what comes before the last slash. Only
/// Windows is told the directory.
pub proof fn law_files_are_the_library<C, R, T>(
    s: StateView<C, R, T>,
    t: StateView<C, R, T>,
    platform: Platform,
    path: String,
    dir: Seq<char>,
    name: Seq<char>,
    action: InitAction,
)
    requires
        init_step(
            s,
            platform,
            InitEvent::Probed { path, exists: true, is_file: true },
            t,
            action,
        ),
    ensures
        ({
            &&& action matches InitAction::Load { dll_directory, library }
            &&& library@ == path@
            &&& t.lib_dir matches Some(kept)
            &&& kept.is_prefix_of(path@)
            &&& is_plain_dir(dir) && is_file_name(name) && path@ == dir + seq!['/'] + name ==> kept
                == dir
            &&& is_plain_dir(dir) && !dir.contains('/') && is_file_name(name) && path@ == dir
                + seq!['\\'] + name ==> kept == dir || kept.len() == 0
            &&& is_file_name(path@) ==> kept.len() == 0
            &&& path@.len() == 0 ==> kept.len() == 0
            &&& platform == Platform::Windows ==> (dll_directory matches Some(told) && told@
                == kept)
            &&& platform != Platform::Windows ==> dll_directory is None
        }),
{
    assert(file_path(dir, '/', name) == dir + seq!['/'] + name);
    assert(file_path(dir, '\\', name) == dir + seq!['\\'] + name);
}

/// The directory that an initialisation from a file keeps is what comes before
/// the last slash, where the last separator is one, but for separators and
/// dots at its end. Behind a slash and a backslash it is what comes before the
/// one or the other. It is never the file itself where the file is named
/// behind a separator, other than on a server.
pub proof fn law_files_are_in_their_directory<C, R, T>(
    s: StateView<C, R, T>,
    t: StateView<C, R, T>,
    platform: Platform,
    path: String,
    above: Seq<char>,
    below: Seq<char>,
    name: Seq<char>,
    action: InitAction,
)
    requires
        init_step(
            s,
            platform,
            InitEvent::Probed { path, exists: true, is_file: true },
            t,
            action,
        ),
        is_file_name(name),
        !(path@.len() > 1 && (path@[0] == '/' || path@[0] == '\\') && (path@[1] == '/' || path@[1]
            == '\\')),
    ensures
        path@ == above + seq!['/'] + name ==> (t.lib_dir matches Some(kept) && kept.len()
            < path@.len() && kept.is_prefix_of(path@) && forall|i: int|
            kept.len() <= i < above.len() ==> #[trigger] above[i] == '/' || above[i] == '\\'
                || above[i] == '.'),
        path@ == above + seq!['\\'] + name ==> (t.lib_dir matches Some(kept) && kept.len()
            < path@.len() && kept.is_prefix_of(path@)),
        is_plain_dir(above) && is_plain_dir(above + seq!['/'] + below) && !below.contains('/')
            && path@ == above + seq!['/'] + below + seq!['\\'] + name ==> (t.lib_dir matches Some(
            kept,
        ) && (kept == above || kept == above + seq!['/'] + below)),
{
    assert(file_path(above, '/', name) == above + seq!['/'] + name);
    assert(file_path(above, '\\', name) == above + seq!['\\'] + name);
    assert(file_path(file_path(above, '/', below), '\\', name) == above + seq!['/'] + below
        + seq!['\\'] + name);
}

/// The directory of a file is its parent, or the file itself where it has
/// none.
pub proof fn law_parents_are_directories(parent: Seq<char>, path: Seq<char>)
    ensures
        dir_of(Some(parent), path) == parent,
        dir_of(None, path) == path,
{
}

/// The directory of the resources is the last one that was set, and nothing
/// else is changed by setting it.
pub proof fn law_resource_directory<C, R, T>(
    s: StateView<C, R, T>,
    first: Seq<char>,
    second: Seq<char>,
)
    ensures
        ({
            let t = after_set_resource_dir(s, first);
            &&& t.resource_dir == Some(first)
            &&& t.instances == s.instances
            &&& t.controller_pool == s.controller_pool
            &&& t.next_conn_id == s.next_conn_id
            &&& t.lib_dir == s.lib_dir
            &&& t.cached_adb_devices == s.cached_adb_devices
            &&& t.cached_win32_windows == s.cached_win32_windows
            &&& after_set_resource_dir(t, second) == after_set_resource_dir(s, second)
        }),
{
}

/// Nothing but the directory of the library is changed by an initialisation,
/// and that only when the path was found.
pub proof fn law_init_changes_the_directory_only<C, R, T>(
    s: StateView<C, R, T>,
    t: StateView<C, R, T>,
    platform: Platform,
    event: InitEvent,
    action: InitAction,
)
    requires
        init_step(s, platform, event, t, action),
    ensures
        t.instances == s.instances,
        t.controller_pool == s.controller_pool,
        t.next_conn_id == s.next_conn_id,
        t.resource_dir == s.resource_dir,
        t.cached_adb_devices == s.cached_adb_devices,
        t.cached_win32_windows == s.cached_win32_windows,
        !(event matches InitEvent::Probed { exists: true, .. }) ==> t.lib_dir == s.lib_dir,
{
}

/// An initialisation looks at the path that it was given, or at the default
/// one where it was given none or an empty one. Where there is no default
/// path it ends with the words for that, and where nothing is at the path it
/// ends and names the path.
pub proof fn law_init_looks_at_the_path<C, R, T>(
    s: StateView<C, R, T>,
    t: StateView<C, R, T>,
    platform: Platform,
    event: InitEvent,
    action: InitAction,
)
    requires
        init_step(s, platform, event, t, action),
    ensures
        event matches InitEvent::Begin(Some(dir)) ==> dir@.len() > 0 ==> (action matches
            InitAction::Probe(path) && path@ == dir@),
        event matches InitEvent::Begin(Some(dir)) ==> dir@.len() == 0 ==> action is FindDefaultDir,
        event matches InitEvent::Begin(None) ==> action is FindDefaultDir,
        event matches InitEvent::DefaultDir(Ok(dir)) ==> (action matches InitAction::Probe(path)
            && path@ == dir@),
        event matches InitEvent::DefaultDir(Err(e)) ==> (action matches InitAction::Finish(
            Err(message),
        ) && message@ == e@),
        event matches InitEvent::Probed { path, exists: false, .. } ==> (action matches
            InitAction::Finish(Err(message)) && message@
            == "MaaFramework library directory not found: "@ + path@),
{
}

/// A load that came through, or failed because the library was there already,
/// leads on to the toolkit; any other failure ends the initialisation with
/// its own words. The toolkit leads on to the version, whatever came of it,
/// and the version is the answer.
pub proof fn law_init_goes_on_with_a_library<C, R, T>(
    s: StateView<C, R, T>,
    t: StateView<C, R, T>,
    platform: Platform,
    event: InitEvent,
    action: InitAction,
)
    requires
        init_step(s, platform, event, t, action),
    ensures
        event matches InitEvent::Loaded(Ok(())) ==> action is InitToolkit,
        event matches InitEvent::Loaded(Err(e)) ==> has_part(e@, "already loaded"@)
            ==> action is InitToolkit,
        event matches InitEvent::Loaded(Err(e)) ==> !has_part(e@, "already loaded"@) ==> (
        action matches InitAction::Finish(Err(message)) && message@ == e@),
        event is ToolkitReady ==> action is ReadVersion,
        event matches InitEvent::Version(version) ==> (action matches InitAction::Finish(Ok(answer))
            && answer@ == version@),
{
}

/// A load that came through, or failed because the library was there already,
/// leads a version check on to the version; any other failure ends it with
/// its words behind a fixed beginning.
pub proof fn law_check_goes_on_with_a_library(
    lib_dir: Option<Seq<char>>,
    platform: Platform,
    event: CheckEvent,
    action: CheckAction,
)
    requires
        check_step(lib_dir, platform, event, action),
    ensures
        event matches CheckEvent::Loaded(Ok(())) ==> action is ReadVersion,
        event matches CheckEvent::Loaded(Err(e)) ==> has_part(e@, "already loaded"@)
            ==> action is ReadVersion,
        event matches CheckEvent::Loaded(Err(e)) ==> !has_part(e@, "already loaded"@) ==> (
        action matches CheckAction::Finish(Err(message)) && message@
            == "MaaFramework library failed to load: "@ + e@),
        event matches CheckEvent::Version(None) ==> (action matches CheckAction::Finish(
            Err(message),
        ) && message@ == "MaaFramework library not loaded (panic in maa_version)"@),
        event matches CheckEvent::Version(Some(version)) ==> version@.len() == 0 || version@
            == "unknown"@ ==> (action matches CheckAction::Finish(Err(message)) && message@
            == "MaaFramework not initialized"@),
        event matches CheckEvent::Version(Some(version)) ==> version@.len() > 0 && version@
            != "unknown"@ ==> (action matches CheckAction::Finish(Ok(_))),
{
}

} // verus!
