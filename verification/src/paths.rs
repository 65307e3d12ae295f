//! The path resolver: where the backend executable, the data directory and the log
//! directory are looked for on each platform.
//!
//! A path is kept as the root it starts from and the segments that follow, so that what
//! is resolved does not depend on how a platform writes its paths.

use crate::error::SupervisorError;
use vstd::prelude::*;

verus! {

/// The family of operating systems that the application runs on.
#[derive(Debug, Clone, Copy, PartialEq, Eq, Structural)]
pub enum Platform {
    Windows,
    MacOs,
    Other,
}

/// The environment variables that path resolution reads, as they were when it began.
/// A variable that is not set, or that holds no valid text, is `None`.
#[derive(Debug, Clone, PartialEq, Eq)]
pub struct EnvSnapshot {
    pub appdata: Option<String>,
    pub userprofile: Option<String>,
    pub home: Option<String>,
}

/// The text of a variable, if it is set.
pub open spec fn text_of(value: Option<String>) -> Option<Seq<char>> {
    match value {
        Some(text) => Some(text@),
        None => None,
    }
}

/// An `EnvSnapshot` as plain texts.
pub struct EnvView {
    pub appdata: Option<Seq<char>>,
    pub userprofile: Option<Seq<char>>,
    pub home: Option<Seq<char>>,
}

impl View for EnvSnapshot {
    type V = EnvView;

    open spec fn view(&self) -> EnvView {
        EnvView {
            appdata: text_of(self.appdata),
            userprofile: text_of(self.userprofile),
            home: text_of(self.home),
        }
    }
}

/// A path: the root it starts from, and the segments joined to it in order.
#[derive(Debug, Clone, PartialEq, Eq)]
pub struct AppPath {
    pub root: String,
    pub segments: Vec<&'static str>,
}

/// An `AppPath` as plain texts.
pub struct AppPathView {
    pub root: Seq<char>,
    pub segments: Seq<Seq<char>>,
}

impl View for AppPath {
    type V = AppPathView;

    open spec fn view(&self) -> AppPathView {
        AppPathView {
            root: self.root@,
            segments: self.segments@.map_values(|segment: &'static str| segment@),
        }
    }
}

/// The name of the directory that bundled resources are kept in.
pub open spec fn resources_dir() -> Seq<char> {
    "resources"@
}

/// The file name of the backend executable.
pub open spec fn backend_name() -> Seq<char> {
    "backend.exe"@
}

/// The name of the application's own directory.
pub open spec fn app_dir() -> Seq<char> {
    "AI Tutor"@
}

/// The first place where the backend is looked for: among the bundled resources.
pub open spec fn primary_candidate(exe_dir: Seq<char>) -> AppPathView {
    AppPathView { root: exe_dir, segments: seq![resources_dir(), backend_name()] }
}

/// The second place where the backend is looked for: beside the application's binary.
pub open spec fn fallback_candidate(exe_dir: Seq<char>) -> AppPathView {
    AppPathView { root: exe_dir, segments: seq![backend_name()] }
}

/// The two places where the backend executable is looked for.
#[derive(Debug, Clone, PartialEq, Eq)]
pub struct ExecutableCandidates {
    pub primary: AppPath,
    pub fallback: AppPath,
}

/// The candidate locations of the backend executable, given the directory that holds the
/// running application's binary. Only Windows is supported: on every other platform this
/// fails, whatever the directory.
pub fn executable_candidates(platform: Platform, exe_dir: Option<&str>) -> (outcome: Result<
    ExecutableCandidates,
    SupervisorError,
>)
    ensures
        match outcome {
            Ok(candidates) => {
                &&& platform == Platform::Windows
                &&& exe_dir is Some
                &&& candidates.primary@ == primary_candidate(exe_dir->0@)
                &&& candidates.fallback@ == fallback_candidate(exe_dir->0@)
            },
            Err(SupervisorError::UnsupportedPlatform) => platform != Platform::Windows,
            Err(SupervisorError::ExecutableDirUnknown) => platform == Platform::Windows
                && exe_dir is None,
            Err(_) => false,
        },
{
    match platform {
        Platform::Windows => {},
        _ => {
            return Err(SupervisorError::UnsupportedPlatform);
        },
    }
    match exe_dir {
        None => Err(SupervisorError::ExecutableDirUnknown),
        Some(dir) => {
            let mut primary_segments: Vec<&'static str> = Vec::new();
            primary_segments.push("resources");
            primary_segments.push("backend.exe");
            let mut fallback_segments: Vec<&'static str> = Vec::new();
            fallback_segments.push("backend.exe");
            let primary = AppPath { root: String::from_str(dir), segments: primary_segments };
            let fallback = AppPath { root: String::from_str(dir), segments: fallback_segments };
            proof {
                assert(primary@.segments =~= seq![resources_dir(), backend_name()]);
                assert(fallback@.segments =~= seq![backend_name()]);
            }
            Ok(ExecutableCandidates { primary, fallback })
        },
    }
}

/// Chooses between the candidates by which of them exist. The primary location is used if
/// the executable is there; the fallback only if it is not. If the executable is at
/// neither, the failure names the fallback, the last place that was tried.
pub fn select_executable(
    candidates: ExecutableCandidates,
    primary_exists: bool,
    fallback_exists: bool,
) -> (outcome: Result<AppPath, SupervisorError>)
    ensures
        primary_exists ==> outcome == Ok::<AppPath, SupervisorError>(candidates.primary),
        !primary_exists && fallback_exists ==> outcome == Ok::<AppPath, SupervisorError>(
            candidates.fallback,
        ),
        !primary_exists && !fallback_exists ==> outcome == Err::<AppPath, SupervisorError>(
            SupervisorError::ExecutableNotFound(candidates.fallback),
        ),
{
    if primary_exists {
        Ok(candidates.primary)
    } else if fallback_exists {
        Ok(candidates.fallback)
    } else {
        Err(SupervisorError::ExecutableNotFound(candidates.fallback))
    }
}

/// Where the backend executable is, given the platform, the directory of the running
/// application's binary, and whether the executable exists at each candidate location.
pub fn resolve_executable_path(
    platform: Platform,
    exe_dir: Option<&str>,
    primary_exists: bool,
    fallback_exists: bool,
) -> (outcome: Result<AppPath, SupervisorError>)
    ensures
        match outcome {
            Ok(path) => {
                &&& platform == Platform::Windows
                &&& exe_dir is Some
                &&& primary_exists ==> path@ == primary_candidate(exe_dir->0@)
                &&& !primary_exists ==> fallback_exists && path@ == fallback_candidate(
                    exe_dir->0@,
                )
            },
            Err(SupervisorError::UnsupportedPlatform) => platform != Platform::Windows,
            Err(SupervisorError::ExecutableDirUnknown) => platform == Platform::Windows
                && exe_dir is None,
            Err(SupervisorError::ExecutableNotFound(tried)) => {
                &&& platform == Platform::Windows
                &&& exe_dir is Some
                &&& !primary_exists
                &&& !fallback_exists
                &&& tried@ == fallback_candidate(exe_dir->0@)
            },
            Err(_) => false,
        },
{
    match executable_candidates(platform, exe_dir) {
        Ok(candidates) => select_executable(candidates, primary_exists, fallback_exists),
        Err(failure) => Err(failure),
    }
}

/// The root of the per-user application data on a platform. On Windows it is the roaming
/// profile, or the user's profile where that is not set; elsewhere the home directory.
/// Where none of them is set it is `unset`.
pub open spec fn user_root(platform: Platform, env: EnvView, unset: Seq<char>) -> Seq<char> {
    match platform {
        Platform::Windows => match env.appdata {
            Some(appdata) => appdata,
            None => match env.userprofile {
                Some(profile) => profile,
                None => unset,
            },
        },
        _ => match env.home {
            Some(home) => home,
            None => Seq::<char>::empty(),
        },
    }
}

/// The segments from the per-user root to the application's directory named `leaf`.
pub open spec fn app_segments(platform: Platform, leaf: Seq<char>) -> Seq<Seq<char>> {
    match platform {
        Platform::Windows => seq![app_dir(), leaf],
        Platform::MacOs => seq!["Library"@, "Application Support"@, app_dir(), leaf],
        Platform::Other => seq![".local"@, "share"@, app_dir(), leaf],
    }
}

/// The directory in which the backend keeps its data.
pub open spec fn data_dir_of(platform: Platform, env: EnvView) -> AppPathView {
    AppPathView {
        root: user_root(platform, env, Seq::<char>::empty()),
        segments: app_segments(platform, "data"@),
    }
}

/// The directory in which the application keeps its logs.
pub open spec fn log_dir_of(platform: Platform, env: EnvView) -> AppPathView {
    AppPathView { root: user_root(platform, env, "."@), segments: app_segments(platform, "logs"@) }
}

/// The first of the values that is set, else `unset`.
fn first_set(first: &Option<String>, second: &Option<String>, unset: &str) -> (root: String)
    ensures
        root@ == match text_of(*first) {
            Some(text) => text,
            None => match text_of(*second) {
                Some(text) => text,
                None => unset@,
            },
        },
{
    match first {
        Some(text) => text.clone(),
        None => match second {
            Some(text) => text.clone(),
            None => String::from_str(unset),
        },
    }
}

/// The per-user root on a platform, with `unset` where Windows sets neither variable.
fn resolve_user_root(platform: Platform, env: &EnvSnapshot, unset: &str) -> (root: String)
    ensures
        root@ == user_root(platform, env@, unset@),
{
    match platform {
        Platform::Windows => first_set(&env.appdata, &env.userprofile, unset),
        _ => {
            proof {
                reveal_strlit("");
                assert(""@ =~= Seq::<char>::empty());
            }
            first_set(&env.home, &None, "")
        },
    }
}

/// The segments from the per-user root to the application's directory named `leaf`.
fn resolve_app_segments(platform: Platform, leaf: &'static str) -> (segments: Vec<&'static str>)
    ensures
        segments@.map_values(|segment: &'static str| segment@) == app_segments(platform, leaf@),
{
    let mut segments: Vec<&'static str> = Vec::new();
    match platform {
        Platform::Windows => {},
        Platform::MacOs => {
            segments.push("Library");
            segments.push("Application Support");
        },
        Platform::Other => {
            segments.push(".local");
            segments.push("share");
        },
    }
    segments.push("AI Tutor");
    segments.push(leaf);
    proof {
        assert(segments@.map_values(|segment: &'static str| segment@) =~= app_segments(
            platform,
            leaf@,
        ));
    }
    segments
}

/// The directory in which the backend keeps its data, computed from the environment as it
/// is now: nothing is remembered between calls.
pub fn resolve_data_dir(platform: Platform, env: &EnvSnapshot) -> (path: AppPath)
    ensures
        path@ == data_dir_of(platform, env@),
{
    proof {
        reveal_strlit("");
        assert(""@ =~= Seq::<char>::empty());
    }
    AppPath {
        root: resolve_user_root(platform, env, ""),
        segments: resolve_app_segments(platform, "data"),
    }
}

/// The directory in which the application keeps its logs.
pub fn resolve_log_dir(platform: Platform, env: &EnvSnapshot) -> (path: AppPath)
    ensures
        path@ == log_dir_of(platform, env@),
{
    AppPath {
        root: resolve_user_root(platform, env, "."),
        segments: resolve_app_segments(platform, "logs"),
    }
}

} // verus!
