use vstd::prelude::*;
use crate::environment::{backend_env_spec, backend_environment, env_view};
use crate::paths::{
    backend_entry_of, backend_entry_path, data_dir_of, resolve_paths, uploads_dir_of,
    ResolvedPaths,
};
use crate::relay::{relay_event, relay_spec, LogLine, OutputEvent, StreamSource};

verus! {

pub const DEV_BANNER: &'static str = "Social Scheduler Desktop (Dev Mode)";

pub const DEV_NOTE: &'static str = "Note: Start backend manually with 'cd backend && npm run dev'";

pub const PROD_BANNER: &'static str = "Social Scheduler Desktop starting...";

pub const STARTED_NOTICE: &'static str = "\u{2705} Backend started successfully!";

pub const LAUNCH_FAILED_PREFIX: &'static str = "\u{274c} Failed to start backend: ";

/// Name under which the bundled backend runtime is packaged.
pub const RUNTIME_NAME: &'static str = "node";

/// How the application was built: a debug build runs in development mode,
/// where the backend is started by hand.
#[derive(Clone, Copy, Debug, PartialEq, Eq, Structural)]
pub enum RunMode {
    Development,
    Production,
}

/// Decides the run mode from the build configuration.
pub fn run_mode(debug_build: bool) -> (r: RunMode)
    ensures
        r == (if debug_build { RunMode::Development } else { RunMode::Production }),
{
    if debug_build {
        RunMode::Development
    } else {
        RunMode::Production
    }
}

/// Severity threshold of the verbose logging turned on in development mode.
#[derive(Clone, Copy, Debug, PartialEq, Eq, Structural)]
pub enum LogLevel {
    Error,
    Warn,
    Info,
    Debug,
    Trace,
}

/// Startup failures that leave the installation unusable.
#[derive(Clone, Copy, Debug, PartialEq, Eq, Structural)]
pub enum SetupError {
    ResourceDirUnavailable,
    AppDataDirUnavailable,
    DataDirNotCreated,
    UploadsDirNotCreated,
    RuntimeUnavailable,
}

pub open spec fn error_text(e: SetupError) -> Seq<char> {
    match e {
        SetupError::ResourceDirUnavailable => "Failed to get resource directory"@,
        SetupError::AppDataDirUnavailable => "Failed to get app data directory"@,
        SetupError::DataDirNotCreated => "Failed to create data directory"@,
        SetupError::UploadsDirNotCreated => "Failed to create uploads directory"@,
        SetupError::RuntimeUnavailable => "Failed to create Node.js sidecar"@,
    }
}

impl SetupError {
    /// A description of the failure for the operator.
    pub fn message(&self) -> (r: String)
        ensures
            r@ == error_text(*self),
    {
        match self {
            SetupError::ResourceDirUnavailable => String::from_str("Failed to get resource directory"),
            SetupError::AppDataDirUnavailable => String::from_str("Failed to get app data directory"),
            SetupError::DataDirNotCreated => String::from_str("Failed to create data directory"),
            SetupError::UploadsDirNotCreated => String::from_str("Failed to create uploads directory"),
            SetupError::RuntimeUnavailable => String::from_str("Failed to create Node.js sidecar"),
        }
    }
}

/// How to start the backend: the runtime runs `entry`, its sole argument,
/// with `env` laid over the inherited environment.
#[derive(Debug)]
pub struct LaunchRequest {
    pub entry: String,
    pub env: Vec<(String, String)>,
}

/// What the host must do next on the supervisor's behalf.
#[derive(Debug)]
pub enum Action {
    /// Turn on verbose logging at the given threshold.
    EnableDevLogging(LogLevel),
    /// Write a line to the console stream it names.
    Log(LogLine),
    /// Look up the resource directory; answer with `Event::ResourceDir`.
    ResolveResourceDir,
    /// Look up the application data directory; answer with `Event::AppDataDir`.
    ResolveAppDataDir,
    /// Create the directory and its missing parents; answer with `Event::DirReady`.
    CreateDir(String),
    /// Locate the bundled runtime; answer with `Event::RuntimeReady`.
    LocateRuntime,
    /// Start the runtime in the background; answer with `Event::Launched`
    /// or `Event::LaunchFailed`.
    Launch(LaunchRequest),
    /// The setup hook is done and reports success.
    Complete,
    /// The setup hook fails: startup stops.
    Abort(SetupError),
}

/// What the host reports back.
#[derive(Debug)]
pub enum Event {
    Start(RunMode),
    ResourceDir(Option<String>),
    AppDataDir(Option<String>),
    DirReady(bool),
    RuntimeReady(bool),
    Launched,
    LaunchFailed(String),
    Output(OutputEvent),
    Closed,
}

/// Where the launch sequence stands.
#[derive(Debug)]
pub enum Stage {
    Idle,
    AwaitResourceDir,
    AwaitAppDataDir { backend_entry: String },
    AwaitDataDir { paths: ResolvedPaths },
    AwaitUploadsDir { paths: ResolvedPaths },
    AwaitRuntime { paths: ResolvedPaths },
    AwaitLaunch,
    Relaying,
    Finished,
    Aborted,
}

pub open spec fn is_line(a: Action, source: StreamSource, text: Seq<char>) -> bool {
    a matches Action::Log(l) && l.source == source && l.text@ == text
}

pub open spec fn unchanged(s: Stage, t: Stage, acts: Seq<Action>) -> bool {
    t == s && acts.len() == 0
}

pub open spec fn aborts(t: Stage, acts: Seq<Action>, e: SetupError) -> bool {
    t is Aborted && acts.len() == 1 && acts[0] == Action::Abort(e)
}

/// One step of the launch sequence: from stage `s`, on event `e`, the
/// sequence moves to `t` and asks for `acts`, in order.
pub open spec fn step_ok(s: Stage, e: Event, t: Stage, acts: Seq<Action>) -> bool {
    match s {
        Stage::Idle => match e {
            Event::Start(RunMode::Development) => {
                &&& t is Finished
                &&& acts.len() == 4
                &&& acts[0] == Action::EnableDevLogging(LogLevel::Info)
                &&& is_line(acts[1], StreamSource::Stdout, DEV_BANNER@)
                &&& is_line(acts[2], StreamSource::Stdout, DEV_NOTE@)
                &&& acts[3] is Complete
            },
            Event::Start(RunMode::Production) => {
                &&& t is AwaitResourceDir
                &&& acts.len() == 2
                &&& is_line(acts[0], StreamSource::Stdout, PROD_BANNER@)
                &&& acts[1] is ResolveResourceDir
            },
            _ => unchanged(s, t, acts),
        },
        Stage::AwaitResourceDir => match e {
            Event::ResourceDir(None) => aborts(t, acts, SetupError::ResourceDirUnavailable),
            Event::ResourceDir(Some(d)) => {
                &&& t matches Stage::AwaitAppDataDir { backend_entry }
                &&& backend_entry@ == backend_entry_of(d@)
                &&& acts.len() == 1
                &&& acts[0] is ResolveAppDataDir
            },
            _ => unchanged(s, t, acts),
        },
        Stage::AwaitAppDataDir { backend_entry } => match e {
            Event::AppDataDir(None) => aborts(t, acts, SetupError::AppDataDirUnavailable),
            Event::AppDataDir(Some(a)) => {
                &&& t matches Stage::AwaitDataDir { paths }
                &&& paths.backend_entry == backend_entry
                &&& paths.data_dir@ == data_dir_of(a@)
                &&& paths.uploads_dir@ == uploads_dir_of(a@)
                &&& acts.len() == 1
                &&& acts[0] matches Action::CreateDir(d)
                &&& d@ == paths.data_dir@
            },
            _ => unchanged(s, t, acts),
        },
        Stage::AwaitDataDir { paths } => match e {
            Event::DirReady(false) => aborts(t, acts, SetupError::DataDirNotCreated),
            Event::DirReady(true) => {
                &&& t == Stage::AwaitUploadsDir { paths }
                &&& acts.len() == 1
                &&& acts[0] matches Action::CreateDir(d)
                &&& d@ == paths.uploads_dir@
            },
            _ => unchanged(s, t, acts),
        },
        Stage::AwaitUploadsDir { paths } => match e {
            Event::DirReady(false) => aborts(t, acts, SetupError::UploadsDirNotCreated),
            Event::DirReady(true) => {
                &&& t == Stage::AwaitRuntime { paths }
                &&& acts.len() == 1
                &&& acts[0] is LocateRuntime
            },
            _ => unchanged(s, t, acts),
        },
        Stage::AwaitRuntime { paths } => match e {
            Event::RuntimeReady(false) => aborts(t, acts, SetupError::RuntimeUnavailable),
            Event::RuntimeReady(true) => {
                &&& t is AwaitLaunch
                &&& acts.len() == 2
                &&& acts[0] matches Action::Launch(req)
                &&& req.entry == paths.backend_entry
                &&& env_view(req.env@) == backend_env_spec(paths.data_dir@, paths.uploads_dir@)
                &&& acts[1] is Complete
            },
            _ => unchanged(s, t, acts),
        },
        Stage::AwaitLaunch => match e {
            Event::Launched => {
                &&& t is Relaying
                &&& acts.len() == 1
                &&& is_line(acts[0], StreamSource::Stdout, STARTED_NOTICE@)
            },
            Event::LaunchFailed(why) => {
                &&& t is Finished
                &&& acts.len() == 1
                &&& is_line(acts[0], StreamSource::Stderr, LAUNCH_FAILED_PREFIX@ + why@)
            },
            _ => unchanged(s, t, acts),
        },
        Stage::Relaying => match e {
            Event::Output(o) => {
                &&& t is Relaying
                &&& match relay_spec(o) {
                    Some((src, text)) => acts.len() == 1 && is_line(acts[0], src, text),
                    None => acts.len() == 0,
                }
            },
            Event::Closed => t is Finished && acts.len() == 0,
            _ => unchanged(s, t, acts),
        },
        Stage::Finished => unchanged(s, t, acts),
        Stage::Aborted => unchanged(s, t, acts),
    }
}

fn stdout_line(text: &str) -> (r: Action)
    ensures
        is_line(r, StreamSource::Stdout, text@),
{
    Action::Log(LogLine { source: StreamSource::Stdout, text: String::from_str(text) })
}

impl Stage {
    /// Advances the launch sequence by one event.
    pub fn step(self, event: Event) -> (r: (Stage, Vec<Action>))
        ensures
            step_ok(self, event, r.0, r.1@),
    {
        match self {
            Stage::Idle => match event {
                Event::Start(RunMode::Development) => (
                    Stage::Finished,
                    vec![
                        Action::EnableDevLogging(LogLevel::Info),
                        stdout_line(DEV_BANNER),
                        stdout_line(DEV_NOTE),
                        Action::Complete,
                    ],
                ),
                Event::Start(RunMode::Production) => (
                    Stage::AwaitResourceDir,
                    vec![stdout_line(PROD_BANNER), Action::ResolveResourceDir],
                ),
                _ => (Stage::Idle, Vec::new()),
            },
            Stage::AwaitResourceDir => match event {
                Event::ResourceDir(None) => (
                    Stage::Aborted,
                    vec![Action::Abort(SetupError::ResourceDirUnavailable)],
                ),
                Event::ResourceDir(Some(d)) => {
                    let backend_entry = backend_entry_path(d.as_str());
                    (Stage::AwaitAppDataDir { backend_entry }, vec![Action::ResolveAppDataDir])
                },
                _ => (Stage::AwaitResourceDir, Vec::new()),
            },
            Stage::AwaitAppDataDir { backend_entry } => match event {
                Event::AppDataDir(None) => (
                    Stage::Aborted,
                    vec![Action::Abort(SetupError::AppDataDirUnavailable)],
                ),
                Event::AppDataDir(Some(a)) => {
                    let paths = resolve_paths(backend_entry, a.as_str());
                    let create = Action::CreateDir(paths.data_dir.clone());
                    (Stage::AwaitDataDir { paths }, vec![create])
                },
                _ => (Stage::AwaitAppDataDir { backend_entry }, Vec::new()),
            },
            Stage::AwaitDataDir { paths } => match event {
                Event::DirReady(false) => (
                    Stage::Aborted,
                    vec![Action::Abort(SetupError::DataDirNotCreated)],
                ),
                Event::DirReady(true) => {
                    let create = Action::CreateDir(paths.uploads_dir.clone());
                    (Stage::AwaitUploadsDir { paths }, vec![create])
                },
                _ => (Stage::AwaitDataDir { paths }, Vec::new()),
            },
            Stage::AwaitUploadsDir { paths } => match event {
                Event::DirReady(false) => (
                    Stage::Aborted,
                    vec![Action::Abort(SetupError::UploadsDirNotCreated)],
                ),
                Event::DirReady(true) => (Stage::AwaitRuntime { paths }, vec![Action::LocateRuntime]),
                _ => (Stage::AwaitUploadsDir { paths }, Vec::new()),
            },
            Stage::AwaitRuntime { paths } => match event {
                Event::RuntimeReady(false) => (
                    Stage::Aborted,
                    vec![Action::Abort(SetupError::RuntimeUnavailable)],
                ),
                Event::RuntimeReady(true) => {
                    let env = backend_environment(&paths);
                    let req = LaunchRequest { entry: paths.backend_entry, env };
                    (Stage::AwaitLaunch, vec![Action::Launch(req), Action::Complete])
                },
                _ => (Stage::AwaitRuntime { paths }, Vec::new()),
            },
            Stage::AwaitLaunch => match event {
                Event::Launched => (Stage::Relaying, vec![stdout_line(STARTED_NOTICE)]),
                Event::LaunchFailed(why) => {
                    let mut text = String::from_str(LAUNCH_FAILED_PREFIX);
                    text.append(why.as_str());
                    let line = LogLine { source: StreamSource::Stderr, text };
                    (Stage::Finished, vec![Action::Log(line)])
                },
                _ => (Stage::AwaitLaunch, Vec::new()),
            },
            Stage::Relaying => match event {
                Event::Output(o) => match relay_event(&o) {
                    Some(line) => (Stage::Relaying, vec![Action::Log(line)]),
                    None => (Stage::Relaying, Vec::new()),
                },
                Event::Closed => (Stage::Finished, Vec::new()),
                _ => (Stage::Relaying, Vec::new()),
            },
            Stage::Finished => (Stage::Finished, Vec::new()),
            Stage::Aborted => (Stage::Aborted, Vec::new()),
        }
    }
}

} // verus!
