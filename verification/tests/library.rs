//! Finding and loading the library, and checking its version.

use maa_core::library::{
    library_file_name, locate_library, maa_check_version, maa_get_version, maa_init,
    maa_set_resource_dir, CheckAction, CheckEvent, InitAction, InitEvent, LibraryLocation,
    Platform,
};
use maa_core::state::MaaState;
use maa_core::version::{check_supported, check_version, VersionCheckResult};

fn text(t: &str) -> String {
    t.to_string()
}

fn new_state() -> MaaState<u32, u32, u32> {
    MaaState::new()
}

fn slashes(path: &str) -> String {
    path.replace('\\', "/")
}

fn probed(path: &str, exists: bool, is_file: bool) -> InitEvent {
    InitEvent::Probed { path: text(path), exists, is_file }
}

fn compatible(version: &str) -> bool {
    let check = check_supported(text(version)).unwrap();
    assert_eq!(check.current, version);
    assert_eq!(check.minimum, "v5.5.0-beta.1");
    check.is_compatible
}

#[test]
fn each_platform_has_its_library() {
    assert_eq!(library_file_name(Platform::Windows), "MaaFramework.dll");
    assert_eq!(library_file_name(Platform::MacOs), "libMaaFramework.dylib");
    assert_eq!(library_file_name(Platform::Linux), "libMaaFramework.so");
}

#[test]
fn a_request_without_a_directory_takes_the_default() {
    let mut state = new_state();
    for named in [None, Some(text(""))] {
        let action = maa_init(&mut state, Platform::Linux, InitEvent::Begin(named));
        assert_eq!(action, InitAction::FindDefaultDir);
    }
    let action = maa_init(&mut state, Platform::Linux, InitEvent::Begin(Some(text("fw"))));
    assert_eq!(action, InitAction::Probe(text("fw")));
    let action = maa_init(&mut state, Platform::Linux, InitEvent::DefaultDir(Ok(text("maafw"))));
    assert_eq!(action, InitAction::Probe(text("maafw")));
    let action = maa_init(&mut state, Platform::Linux, InitEvent::DefaultDir(Err(text("no exe"))));
    assert_eq!(action, InitAction::Finish(Err(text("no exe"))));
}

#[test]
fn a_path_that_is_not_there_is_named() {
    let mut state = new_state();
    let action = maa_init(&mut state, Platform::Linux, probed("no/such", false, false));
    assert_eq!(
        action,
        InitAction::Finish(Err(text("MaaFramework library directory not found: no/such")))
    );
    assert_eq!(state.lib_dir, None);
}

#[test]
fn a_directory_holds_the_library() {
    let mut state = new_state();
    match maa_init(&mut state, Platform::Linux, probed("opt/maafw", true, false)) {
        InitAction::Load { dll_directory, library } => {
            assert_eq!(dll_directory, None);
            assert_eq!(slashes(&library), "opt/maafw/libMaaFramework.so");
        }
        other => panic!("{:?}", other),
    }
    assert_eq!(state.lib_dir, Some(text("opt/maafw")));
}

#[test]
fn a_file_is_the_library() {
    let mut state = new_state();
    let action = maa_init(&mut state, Platform::Windows, probed("opt/maafw/My.dll", true, true));
    assert_eq!(
        action,
        InitAction::Load {
            dll_directory: Some(text("opt/maafw")),
            library: text("opt/maafw/My.dll"),
        }
    );
    assert_eq!(state.lib_dir, Some(text("opt/maafw")));
}

fn dir_of_file(path: &str) -> String {
    let mut state = new_state();
    match maa_init(&mut state, Platform::Windows, probed(path, true, true)) {
        InitAction::Load { dll_directory, library } => {
            assert_eq!(library, path);
            assert_eq!(dll_directory, state.lib_dir);
        }
        other => panic!("{:?}", other),
    }
    state.lib_dir.unwrap()
}

#[test]
fn a_directory_on_a_server_holds_the_library() {
    for dir in ["\\\\server\\share\\maafw", "\\maafw", "\\\\?\\C:\\maafw"] {
        let mut state = new_state();
        match maa_init(&mut state, Platform::Windows, probed(dir, true, false)) {
            InitAction::Load { dll_directory, library } => {
                assert_eq!(dll_directory, Some(text(dir)));
                assert_eq!(slashes(&library), slashes(&format!("{}/MaaFramework.dll", dir)));
            }
            other => panic!("{:?}", other),
        }
        assert_eq!(state.lib_dir, Some(text(dir)));
    }
}

#[test]
fn a_directory_that_ends_in_a_slash_needs_no_separator() {
    let mut state = new_state();
    for (dir, wanted) in [("/opt/", "/opt/libMaaFramework.so"), ("/", "/libMaaFramework.so")] {
        match maa_init(&mut state, Platform::Linux, probed(dir, true, false)) {
            InitAction::Load { library, .. } => assert_eq!(library, wanted),
            other => panic!("{:?}", other),
        }
    }
    match maa_init(&mut state, Platform::Linux, probed("", true, false)) {
        InitAction::Load { library, .. } => assert_eq!(library, "libMaaFramework.so"),
        other => panic!("{:?}", other),
    }
}

#[test]
fn the_directory_of_a_file_behind_slashes() {
    assert_eq!(dir_of_file("/opt/maa/x.so"), "/opt/maa");
    assert_eq!(dir_of_file("./x.so"), ".");
    assert_eq!(dir_of_file("../x.so"), "..");
    assert_eq!(dir_of_file("maafw-5.5./x.so"), "maafw-5.5.");
    assert_eq!(dir_of_file("/x.so"), "/");
    assert_eq!(dir_of_file("x.so"), "");
}

#[test]
fn the_directory_of_a_file_behind_backslashes() {
    for (dir, root) in [
        ("C:\\maa", false),
        ("C:", true),
        ("\\maa", false),
        ("\\\\server\\share", true),
        ("\\\\server\\share\\maafw", false),
        ("\\\\?\\C:\\maa", false),
    ] {
        let found = dir_of_file(&format!("{}\\MaaFramework.dll", dir));
        let rooted = format!("{}\\", dir);
        assert!(found.is_empty() || found == dir || (root && found == rooted), "{}", found);
    }
}

#[test]
fn a_file_without_a_parent_is_its_own_directory() {
    assert_eq!(
        locate_library(text("/"), true, None, text("unused")),
        LibraryLocation { dir: text("/"), library: text("/") }
    );
    assert_eq!(
        locate_library(text("fw"), false, Some(text("unused")), text("fw/lib")),
        LibraryLocation { dir: text("fw"), library: text("fw/lib") }
    );
}

#[test]
fn a_library_that_is_there_already_will_do() {
    let mut state = new_state();
    let step = |state: &mut MaaState<u32, u32, u32>, reply: Result<(), String>| {
        maa_init(state, Platform::Linux, InitEvent::Loaded(reply))
    };
    assert_eq!(step(&mut state, Ok(())), InitAction::InitToolkit);
    assert_eq!(
        step(&mut state, Err(text("Library is already loaded."))),
        InitAction::InitToolkit
    );
    assert_eq!(
        step(&mut state, Err(text("Already loaded"))),
        InitAction::Finish(Err(text("Already loaded")))
    );
    assert_eq!(
        step(&mut state, Err(text("cannot open"))),
        InitAction::Finish(Err(text("cannot open")))
    );
}

#[test]
fn an_initialisation_ends_with_the_version() {
    let mut state = new_state();
    for reply in [Ok(()), Err(text("no toolkit"))] {
        let action = maa_init(&mut state, Platform::Linux, InitEvent::ToolkitReady(reply));
        assert_eq!(action, InitAction::ReadVersion);
    }
    let action = maa_init(&mut state, Platform::Linux, InitEvent::Version(text("v5.5.0")));
    assert_eq!(action, InitAction::Finish(Ok(text("v5.5.0"))));
}

#[test]
fn the_resource_directory_is_kept() {
    let mut state = new_state();
    assert_eq!(maa_set_resource_dir(&mut state, text("res")), Ok(()));
    assert_eq!(state.resource_dir, Some(text("res")));
    assert_eq!(maa_set_resource_dir(&mut state, text("")), Ok(()));
    assert_eq!(state.resource_dir, Some(text("")));
}

#[test]
fn a_version_is_handed_on() {
    assert_eq!(maa_get_version(Some(text("v5.6.1"))), Ok(text("v5.6.1")));
    assert_eq!(maa_get_version(None), Err(text("MaaFramework library not loaded")));
}

#[test]
fn a_check_loads_from_where_the_library_was_found() {
    let mut state = new_state();
    let action = maa_check_version(&state, Platform::Linux, CheckEvent::Begin);
    assert_eq!(action, CheckAction::ReadVersion);
    maa_init(&mut state, Platform::MacOs, probed("fw", true, false));
    match maa_check_version(&state, Platform::MacOs, CheckEvent::Begin) {
        CheckAction::Load(library) => assert_eq!(slashes(&library), "fw/libMaaFramework.dylib"),
        other => panic!("{:?}", other),
    }
}

#[test]
fn a_check_needs_the_library() {
    let state = new_state();
    let step = |event: CheckEvent| maa_check_version(&state, Platform::Linux, event);
    assert_eq!(step(CheckEvent::Loaded(Ok(()))), CheckAction::ReadVersion);
    assert_eq!(
        step(CheckEvent::Loaded(Err(text("already loaded")))),
        CheckAction::ReadVersion
    );
    assert_eq!(
        step(CheckEvent::Loaded(Err(text("bad image")))),
        CheckAction::Finish(Err(text("MaaFramework library failed to load: bad image")))
    );
    assert_eq!(
        step(CheckEvent::Version(None)),
        CheckAction::Finish(Err(text("MaaFramework library not loaded (panic in maa_version)")))
    );
    for version in ["unknown", ""] {
        assert_eq!(
            step(CheckEvent::Version(Some(text(version)))),
            CheckAction::Finish(Err(text("MaaFramework not initialized")))
        );
    }
    assert_eq!(
        step(CheckEvent::Version(Some(text("v5.5.0-beta.1")))),
        CheckAction::Finish(Ok(VersionCheckResult {
            current: text("v5.5.0-beta.1"),
            minimum: text("v5.5.0-beta.1"),
            is_compatible: true,
        }))
    );
}

#[test]
fn releases_are_supported_from_the_minimum_on() {
    assert!(compatible("v5.5.0"));
    assert!(compatible("5.5.1"));
    assert!(compatible("5.10.0"));
    assert!(compatible("v6.0.0"));
    assert!(!compatible("v5.4.9"));
    assert!(!compatible("4.99.99"));
}

#[test]
fn prereleases_are_supported_from_the_first_beta_on() {
    assert!(compatible("v5.5.0-beta.1"));
    assert!(compatible("v5.5.0-beta.2"));
    assert!(compatible("v5.5.0-beta.10"));
    assert!(compatible("v5.5.0-rc.1"));
    assert!(compatible("v5.6.0-alpha.1"));
    assert!(!compatible("v5.5.0-beta.0"));
    assert!(!compatible("v5.5.0-alpha.9"));
    assert!(!compatible("v5.4.0-beta.9"));
}

#[test]
fn prereleases_go_by_their_word() {
    assert!(!compatible("5.5.0-alpha.9"));
    assert!(!compatible("5.5.0-alpha"));
    assert!(!compatible("5.5.0-bet.7"));
    assert!(!compatible("5.5.0-beta"));
    assert!(compatible("5.5.0-betas.0"));
    assert!(compatible("5.5.0-rc"));
    assert!(compatible("5.5.0-rc.0"));
    assert!(compatible("5.5.1-alpha"));
    assert!(!compatible("5.4.9-rc.3"));
    assert!(compatible("5.5.0+build.1"));
}

#[test]
fn what_is_no_version_is_not_compatible() {
    assert!(!compatible("DEBUG_VERSION"));
    assert!(!compatible("5.5"));
    assert!(!compatible("v"));
    assert!(!compatible("5.05.0"));
}

#[test]
fn a_leading_v_makes_no_difference() {
    for version in ["5.5.0", "5.4.0", "5.5.0-beta.3", "nonsense"] {
        let with_v = format!("v{}", version);
        assert_eq!(compatible(version), compatible(&with_v));
        let with_two = format!("vv{}", version);
        assert_eq!(compatible(version), compatible(&with_two));
    }
}

#[test]
fn a_minimum_that_is_no_version_is_named() {
    let error = check_version(text("1.0.0"), "vx").unwrap_err();
    assert_eq!(
        error,
        "Failed to parse minimum version 'x': unexpected character 'x' while parsing major version number"
    );
    let check = check_version(text("1.0.0"), "v0.9.0").unwrap();
    assert_eq!(check.minimum, "vv0.9.0");
    assert!(check.is_compatible);
}

#[test]
fn a_later_version_stays_compatible() {
    let versions = [
        "4.0.0",
        "5.5.0-alpha.2",
        "5.5.0-beta.0",
        "5.5.0-beta.1",
        "5.5.0-beta.1.fix",
        "5.5.0-beta.11",
        "5.5.0-rc.1",
        "5.5.0",
        "5.5.0+build.7",
        "5.6.0-rc.1",
        "6.1.0",
    ];
    let first = versions.iter().position(|v| compatible(v));
    assert_eq!(first, Some(3));
    for version in &versions[3..] {
        assert!(compatible(version));
        assert!(compatible(&format!("v{}", version)));
    }
}
