//! Finding and loading the framework's library, and checking its version.
//!
//! What has to be done outside is handed out step by step as an action; its
//! outcome comes back as an event.

use vstd::prelude::*;

use crate::config::opt_text;
use crate::state::{MaaState, StateView};
use crate::text::{
    contains, has_part, is_file_name, is_parent, is_path_in, path_join, path_parent, text_is,
};
use crate::version::{check_supported, is_check_of, VersionCheckResult};

verus! {

/// The platforms that the framework has a library for.
#[derive(Debug, Clone, Copy, PartialEq, Eq)]
pub enum Platform {
    Windows,
    MacOs,
    Linux,
}

/// The name of the framework's library.
pub open spec fn library_name(platform: Platform) -> Seq<char> {
    match platform {
        Platform::Windows => "MaaFramework.dll"@,
        Platform::MacOs => "libMaaFramework.dylib"@,
        Platform::Linux => "libMaaFramework.so"@,
    }
}

/// The name of the framework's library.
pub fn library_file_name(platform: Platform) -> (name: &'static str)
    ensures
        name@ == library_name(platform),
        is_file_name(name@),
{
    proof {
        reveal_strlit("MaaFramework.dll");
        reveal_strlit("libMaaFramework.dylib");
        reveal_strlit("libMaaFramework.so");
    }
    match platform {
        Platform::Windows => "MaaFramework.dll",
        Platform::MacOs => "libMaaFramework.dylib",
        Platform::Linux => "libMaaFramework.so",
    }
}

/// Where the library is, and the directory that its own libraries are in.
#[derive(Debug, PartialEq, Eq)]
pub struct LibraryLocation {
    pub dir: String,
    pub library: String,
}

/// Locates the library at a path that exists: a file is the library itself,
/// and its directory is `parent`, or the path where it has none; in a
/// directory the library is `joined`.
pub fn locate_library(
    path: String,
    is_file: bool,
    parent: Option<String>,
    joined: String,
) -> (location: LibraryLocation)
    ensures
        location.library@ == (if is_file {
            path@
        } else {
            joined@
        }),
        location.dir@ == (if is_file {
            dir_of(opt_text(parent), path@)
        } else {
            path@
        }),
{
    if is_file {
        let dir = match parent {
            Some(p) => p,
            None => path.clone(),
        };
        LibraryLocation { dir, library: path }
    } else {
        LibraryLocation { dir: path, library: joined }
    }
}

/// The directory of a file of which this is the parent.
pub open spec fn dir_of(parent: Option<Seq<char>>, path: Seq<char>) -> Seq<char> {
    match parent {
        Some(p) => p,
        None => path,
    }
}

/// What may be said of where the library at a path is, on any platform.
pub open spec fn is_location(
    platform: Platform,
    path: Seq<char>,
    is_file: bool,
    dir: Seq<char>,
    library: Seq<char>,
) -> bool {
    if is_file {
        library == path && exists|parent: Option<Seq<char>>| #[trigger]
            is_parent(parent, path) && dir == dir_of(parent, path)
    } else {
        dir == path && is_path_in(library, path, library_name(platform))
    }
}

/// Whether a load that failed did so because the library is there already.
pub open spec fn is_already_loaded(error: Seq<char>) -> bool {
    has_part(error, "already loaded"@)
}

/// Whether a library is there after a load.
pub open spec fn is_loaded(reply: Result<(), String>) -> bool {
    match reply {
        Ok(()) => true,
        Err(e) => is_already_loaded(e@),
    }
}

/// What came of the last action of an initialisation.
pub enum InitEvent {
    /// The request came in, with the directory or file that it names.
    Begin(Option<String>),
    DefaultDir(Result<String, String>),
    Probed { path: String, exists: bool, is_file: bool },
    Loaded(Result<(), String>),
    ToolkitReady(Result<(), String>),
    Version(String),
}

/// What an initialisation does next.
#[derive(Debug, PartialEq, Eq)]
pub enum InitAction {
    /// Find the directory that the framework lies in by default.
    FindDefaultDir,
    Probe(String),
    /// Load the library; before that, where a directory is given, make it
    /// one that libraries are looked for in.
    Load { dll_directory: Option<String>, library: String },
    InitToolkit,
    ReadVersion,
    Finish(Result<String, String>),
}

/// One step of an initialisation: from the state `s` and the event to the
/// state `t` and the action.
pub open spec fn init_step<C, R, T>(
    s: StateView<C, R, T>,
    platform: Platform,
    event: InitEvent,
    t: StateView<C, R, T>,
    action: InitAction,
) -> bool {
    match event {
        InitEvent::Begin(lib_dir) => {
            &&& t == s
            &&& match lib_dir {
                Some(dir) if dir@.len() > 0 => action matches InitAction::Probe(path) && path@
                    == dir@,
                _ => action is FindDefaultDir,
            }
        },
        InitEvent::DefaultDir(Ok(dir)) => {
            &&& t == s
            &&& action matches InitAction::Probe(path) && path@ == dir@
        },
        InitEvent::DefaultDir(Err(e)) => {
            &&& t == s
            &&& action matches InitAction::Finish(Err(message)) && message@ == e@
        },
        InitEvent::Probed { path, exists: false, is_file: _ } => {
            &&& t == s
            &&& action matches InitAction::Finish(Err(message)) && message@
                == "MaaFramework library directory not found: "@ + path@
        },
        InitEvent::Probed { path, exists: true, is_file } => {
            &&& action matches InitAction::Load { dll_directory, library }
            &&& t.lib_dir matches Some(dir)
            &&& t == (StateView { lib_dir: t.lib_dir, ..s })
            &&& is_location(platform, path@, is_file, dir, library@)
            &&& opt_text(dll_directory) == (if platform is Windows {
                Some(dir)
            } else {
                None
            })
        },
        InitEvent::Loaded(reply) => {
            &&& t == s
            &&& if is_loaded(reply) {
                action is InitToolkit
            } else {
                action matches InitAction::Finish(Err(message)) && message@ == reply->Err_0@
            }
        },
        // A toolkit that was not set up does not stop the initialisation.
        InitEvent::ToolkitReady(_) => t == s && action is ReadVersion,
        InitEvent::Version(version) => {
            &&& t == s
            &&& action matches InitAction::Finish(Ok(answer)) && answer@ == version@
        },
    }
}

/// Takes an initialisation one step further: from what came of the last
/// action to the next one. The directory of the library is kept before the
/// library is loaded.
pub fn maa_init<C, R, T>(
    state: &mut MaaState<C, R, T>,
    platform: Platform,
    event: InitEvent,
) -> (action: InitAction)
    requires
        old(state).wf(),
    ensures
        final(state).wf(),
        init_step(old(state)@, platform, event, final(state)@, action),
{
    match event {
        InitEvent::Begin(lib_dir) => match lib_dir {
            Some(dir) => if dir.as_str().is_empty() {
                InitAction::FindDefaultDir
            } else {
                InitAction::Probe(dir)
            },
            None => InitAction::FindDefaultDir,
        },
        InitEvent::DefaultDir(Ok(dir)) => InitAction::Probe(dir),
        InitEvent::DefaultDir(Err(e)) => InitAction::Finish(Err(e)),
        InitEvent::Probed { path, exists, is_file } => if exists {
            let parent = path_parent(path.as_str());
            let joined = path_join(path.as_str(), library_file_name(platform));
            let location = locate_library(path, is_file, parent, joined);
            let dll_directory = match platform {
                Platform::Windows => Some(location.dir.clone()),
                _ => None,
            };
            state.lib_dir = Some(location.dir);
            InitAction::Load { dll_directory, library: location.library }
        } else {
            InitAction::Finish(
                Err(
                    "MaaFramework library directory not found: ".to_string().concat(path.as_str()),
                ),
            )
        },
        InitEvent::Loaded(Ok(())) => InitAction::InitToolkit,
        InitEvent::Loaded(Err(e)) => if contains(e.as_str(), "already loaded") {
            InitAction::InitToolkit
        } else {
            InitAction::Finish(Err(e))
        },
        InitEvent::ToolkitReady(_) => InitAction::ReadVersion,
        InitEvent::Version(version) => InitAction::Finish(Ok(version)),
    }
}

/// The state after the directory of the resources was set.
pub open spec fn after_set_resource_dir<C, R, T>(
    s: StateView<C, R, T>,
    resource_dir: Seq<char>,
) -> StateView<C, R, T> {
    StateView { resource_dir: Some(resource_dir), ..s }
}

/// Keeps the directory of the resources.
pub fn maa_set_resource_dir<C, R, T>(
    state: &mut MaaState<C, R, T>,
    resource_dir: String,
) -> (result: Result<(), String>)
    requires
        old(state).wf(),
    ensures
        final(state).wf(),
        final(state)@ == (StateView { resource_dir: Some(resource_dir@), ..old(state)@ }),
        final(state)@ == after_set_resource_dir(old(state)@, resource_dir@),
        result is Ok,
{
    state.resource_dir = Some(resource_dir);
    Ok(())
}

/// Answers a question for the version; `None` is a library that could not be
/// asked.
pub fn maa_get_version(version: Option<String>) -> (result: Result<String, String>)
    ensures
        match (version, result) {
            (Some(v), Ok(answer)) => answer@ == v@,
            (None, Err(e)) => e@ == "MaaFramework library not loaded"@,
            _ => false,
        },
{
    match version {
        Some(v) => Ok(v),
        None => Err("MaaFramework library not loaded".to_string()),
    }
}

/// What came of the last action of a version check.
pub enum CheckEvent {
    /// The request came in.
    Begin,
    Loaded(Result<(), String>),
    /// The version, where the library could be asked for it.
    Version(Option<String>),
}

/// What a version check does next.
#[derive(Debug, PartialEq, Eq)]
pub enum CheckAction {
    Load(String),
    ReadVersion,
    Finish(Result<VersionCheckResult, String>),
}

/// Whether a version says that there is none yet.
pub open spec fn is_no_version(version: Seq<char>) -> bool {
    version == "unknown"@ || version.len() == 0
}

/// One step of a version check.
pub open spec fn check_step(
    lib_dir: Option<Seq<char>>,
    platform: Platform,
    event: CheckEvent,
    action: CheckAction,
) -> bool {
    match event {
        CheckEvent::Begin => match lib_dir {
            Some(dir) => action matches CheckAction::Load(library) && is_path_in(
                library@,
                dir,
                library_name(platform),
            ),
            None => action is ReadVersion,
        },
        CheckEvent::Loaded(reply) => if is_loaded(reply) {
            action is ReadVersion
        } else {
            action matches CheckAction::Finish(Err(e)) && e@
                == "MaaFramework library failed to load: "@ + reply->Err_0@
        },
        CheckEvent::Version(None) => action matches CheckAction::Finish(Err(e)) && e@
            == "MaaFramework library not loaded (panic in maa_version)"@,
        CheckEvent::Version(Some(version)) => if is_no_version(version@) {
            action matches CheckAction::Finish(Err(e)) && e@ == "MaaFramework not initialized"@
        } else {
            action matches CheckAction::Finish(Ok(check)) && is_check_of(check, version@)
        },
    }
}

/// Takes a version check one step further: from what came of the last action
/// to the next one.
pub fn maa_check_version<C, R, T>(
    state: &MaaState<C, R, T>,
    platform: Platform,
    event: CheckEvent,
) -> (action: CheckAction)
    ensures
        check_step(state@.lib_dir, platform, event, action),
{
    match event {
        CheckEvent::Begin => match &state.lib_dir {
            Some(dir) => CheckAction::Load(path_join(dir.as_str(), library_file_name(platform))),
            None => CheckAction::ReadVersion,
        },
        CheckEvent::Loaded(Ok(())) => CheckAction::ReadVersion,
        CheckEvent::Loaded(Err(e)) => if contains(e.as_str(), "already loaded") {
            CheckAction::ReadVersion
        } else {
            CheckAction::Finish(
                Err("MaaFramework library failed to load: ".to_string().concat(e.as_str())),
            )
        },
        CheckEvent::Version(None) => CheckAction::Finish(
            Err("MaaFramework library not loaded (panic in maa_version)".to_string()),
        ),
        CheckEvent::Version(Some(version)) => if text_is(version.as_str(), "unknown")
            || version.as_str().is_empty() {
            CheckAction::Finish(Err("MaaFramework not initialized".to_string()))
        } else {
            CheckAction::Finish(check_supported(version))
        },
    }
}

} // verus!
