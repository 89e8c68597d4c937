use scheduler_desktop::environment::backend_environment;
use scheduler_desktop::paths::{backend_entry_path, database_path, join_path, resolve_paths};
use scheduler_desktop::relay::{relay_event, relay_line, OutputEvent, StreamSource};
use scheduler_desktop::setup::{run_mode, Action, LogLevel, Event, RunMode, SetupError, Stage};

fn feed(stage: Stage, event: Event) -> (Stage, Vec<Action>) {
    stage.step(event)
}

fn stdout_text(a: &Action) -> Option<String> {
    match a {
        Action::Log(l) if l.source == StreamSource::Stdout => Some(l.text.clone()),
        _ => None,
    }
}

fn stderr_text(a: &Action) -> Option<String> {
    match a {
        Action::Log(l) if l.source == StreamSource::Stderr => Some(l.text.clone()),
        _ => None,
    }
}

fn env_pairs(env: &[(String, String)]) -> Vec<(&str, &str)> {
    env.iter().map(|(k, v)| (k.as_str(), v.as_str())).collect()
}

#[test]
fn join_inserts_separator() {
    assert_eq!(join_path("/a/b", "c"), "/a/b/c");
    assert_eq!(join_path("/a/b/", "c"), "/a/b/c");
    assert_eq!(join_path("", "c"), "c");
    assert_eq!(join_path("/", "data"), "/data");
}

#[test]
fn layout_from_app_data_dir() {
    let entry = backend_entry_path("/opt/app");
    assert_eq!(entry, "/opt/app/resources/backend/backend.cjs");
    let paths = resolve_paths(entry, "/home/u/.local/share/app");
    assert_eq!(paths.data_dir, "/home/u/.local/share/app/data");
    assert_eq!(paths.uploads_dir, "/home/u/.local/share/app/uploads");
    assert_eq!(database_path(&paths.data_dir), "/home/u/.local/share/app/data/scheduler.db");
}

#[test]
fn database_outside_uploads() {
    let paths = resolve_paths(String::new(), "/srv/x/");
    let db = database_path(&paths.data_dir);
    assert_eq!(db, "/srv/x/data/scheduler.db");
    assert!(!db.starts_with(&format!("{}/", paths.uploads_dir)));
    assert!(db.starts_with(&format!("{}/", paths.data_dir)));
}

#[test]
fn environment_has_fixed_port_and_marker() {
    let paths = resolve_paths(String::from("/r/entry"), "/d");
    let env = backend_environment(&paths);
    assert_eq!(
        env_pairs(&env),
        vec![
            ("DATABASE_PATH", "/d/data/scheduler.db"),
            ("UPLOADS_DIR", "/d/uploads"),
            ("PORT", "3001"),
            ("NODE_ENV", "production"),
        ]
    );
}

#[test]
fn mode_follows_build() {
    assert_eq!(run_mode(true), RunMode::Development);
    assert_eq!(run_mode(false), RunMode::Production);
}

#[test]
fn development_prints_notes_and_completes() {
    let (stage, acts) = feed(Stage::Idle, Event::Start(RunMode::Development));
    assert!(matches!(stage, Stage::Finished));
    assert_eq!(acts.len(), 4);
    assert!(matches!(acts[0], Action::EnableDevLogging(LogLevel::Info)));
    assert_eq!(stdout_text(&acts[1]).unwrap(), "Social Scheduler Desktop (Dev Mode)");
    assert_eq!(
        stdout_text(&acts[2]).unwrap(),
        "Note: Start backend manually with 'cd backend && npm run dev'"
    );
    assert!(matches!(acts[3], Action::Complete));
    // nothing follows, whatever the host reports
    let (stage, acts) = feed(stage, Event::DirReady(true));
    assert!(matches!(stage, Stage::Finished));
    assert!(acts.is_empty());
}

#[test]
fn production_scenario_environment() {
    let (s, acts) = feed(Stage::Idle, Event::Start(RunMode::Production));
    assert_eq!(stdout_text(&acts[0]).unwrap(), "Social Scheduler Desktop starting...");
    assert!(matches!(acts[1], Action::ResolveResourceDir));
    let (s, acts) = feed(s, Event::ResourceDir(Some(String::from("/opt/app"))));
    assert!(matches!(acts[..], [Action::ResolveAppDataDir]));
    let (s, acts) = feed(s, Event::AppDataDir(Some(String::from("/home/u/.local/share/app"))));
    match &acts[..] {
        [Action::CreateDir(d)] => assert_eq!(d, "/home/u/.local/share/app/data"),
        other => panic!("unexpected {:?}", other),
    }
    let (s, acts) = feed(s, Event::DirReady(true));
    match &acts[..] {
        [Action::CreateDir(d)] => assert_eq!(d, "/home/u/.local/share/app/uploads"),
        other => panic!("unexpected {:?}", other),
    }
    let (s, acts) = feed(s, Event::DirReady(true));
    assert!(matches!(acts[..], [Action::LocateRuntime]));
    let (s, acts) = feed(s, Event::RuntimeReady(true));
    assert!(matches!(s, Stage::AwaitLaunch));
    assert_eq!(acts.len(), 2);
    match &acts[0] {
        Action::Launch(req) => {
            assert_eq!(req.entry, "/opt/app/resources/backend/backend.cjs");
            assert_eq!(
                env_pairs(&req.env),
                vec![
                    ("DATABASE_PATH", "/home/u/.local/share/app/data/scheduler.db"),
                    ("UPLOADS_DIR", "/home/u/.local/share/app/uploads"),
                    ("PORT", "3001"),
                    ("NODE_ENV", "production"),
                ]
            );
        }
        other => panic!("unexpected {:?}", other),
    }
    assert!(matches!(acts[1], Action::Complete));
}

#[test]
fn resource_dir_failure_aborts() {
    let (s, _) = feed(Stage::Idle, Event::Start(RunMode::Production));
    let (s, acts) = feed(s, Event::ResourceDir(None));
    assert!(matches!(s, Stage::Aborted));
    assert!(matches!(acts[..], [Action::Abort(SetupError::ResourceDirUnavailable)]));
    let (s, acts) = feed(s, Event::AppDataDir(Some(String::from("/x"))));
    assert!(matches!(s, Stage::Aborted));
    assert!(acts.is_empty());
}

fn up_to_runtime() -> Stage {
    let (s, _) = feed(Stage::Idle, Event::Start(RunMode::Production));
    let (s, _) = feed(s, Event::ResourceDir(Some(String::from("/r"))));
    let (s, _) = feed(s, Event::AppDataDir(Some(String::from("/a"))));
    let (s, _) = feed(s, Event::DirReady(true));
    let (s, _) = feed(s, Event::DirReady(true));
    s
}

#[test]
fn each_fatal_error_has_its_step() {
    let (s, _) = feed(Stage::Idle, Event::Start(RunMode::Production));
    let (s, _) = feed(s, Event::ResourceDir(Some(String::from("/r"))));
    let (_, acts) = feed(s, Event::AppDataDir(None));
    assert!(matches!(acts[..], [Action::Abort(SetupError::AppDataDirUnavailable)]));

    let (s, _) = feed(Stage::Idle, Event::Start(RunMode::Production));
    let (s, _) = feed(s, Event::ResourceDir(Some(String::from("/r"))));
    let (s, _) = feed(s, Event::AppDataDir(Some(String::from("/a"))));
    let (_, acts) = feed(s, Event::DirReady(false));
    assert!(matches!(acts[..], [Action::Abort(SetupError::DataDirNotCreated)]));

    let (s, _) = feed(Stage::Idle, Event::Start(RunMode::Production));
    let (s, _) = feed(s, Event::ResourceDir(Some(String::from("/r"))));
    let (s, _) = feed(s, Event::AppDataDir(Some(String::from("/a"))));
    let (s, _) = feed(s, Event::DirReady(true));
    let (_, acts) = feed(s, Event::DirReady(false));
    assert!(matches!(acts[..], [Action::Abort(SetupError::UploadsDirNotCreated)]));

    let (s, acts) = feed(up_to_runtime(), Event::RuntimeReady(false));
    assert!(matches!(s, Stage::Aborted));
    assert!(matches!(acts[..], [Action::Abort(SetupError::RuntimeUnavailable)]));
}

#[test]
fn error_messages() {
    assert_eq!(SetupError::ResourceDirUnavailable.message(), "Failed to get resource directory");
    assert_eq!(SetupError::AppDataDirUnavailable.message(), "Failed to get app data directory");
    assert_eq!(SetupError::DataDirNotCreated.message(), "Failed to create data directory");
    assert_eq!(SetupError::UploadsDirNotCreated.message(), "Failed to create uploads directory");
    assert_eq!(SetupError::RuntimeUnavailable.message(), "Failed to create Node.js sidecar");
}

#[test]
fn launch_failure_logs_one_error() {
    let (s, acts) = feed(up_to_runtime(), Event::RuntimeReady(true));
    assert!(matches!(acts[1], Action::Complete));
    let (s, acts) = feed(s, Event::LaunchFailed(String::from("No such file")));
    assert!(matches!(s, Stage::Finished));
    assert_eq!(acts.len(), 1);
    assert_eq!(stderr_text(&acts[0]).unwrap(), "\u{274c} Failed to start backend: No such file");
    let (_, acts) = feed(s, Event::Output(OutputEvent::Stderr(b"late".to_vec())));
    assert!(acts.is_empty());
}

#[test]
fn relays_output_in_order() {
    let (s, _) = feed(up_to_runtime(), Event::RuntimeReady(true));
    let (s, acts) = feed(s, Event::Launched);
    assert_eq!(stdout_text(&acts[0]).unwrap(), "\u{2705} Backend started successfully!");
    let (s, a1) = feed(s, Event::Output(OutputEvent::Stdout(b"listening".to_vec())));
    let (s, a2) = feed(s, Event::Output(OutputEvent::Stderr(b"warn".to_vec())));
    let (s, a3) = feed(s, Event::Output(OutputEvent::Other));
    let (s, a4) = feed(s, Event::Output(OutputEvent::Stdout(b"ready".to_vec())));
    assert_eq!(stdout_text(&a1[0]).unwrap(), "Backend: listening");
    assert_eq!(stderr_text(&a2[0]).unwrap(), "Backend Error: warn");
    assert!(a3.is_empty());
    assert_eq!(stdout_text(&a4[0]).unwrap(), "Backend: ready");
    let (s, acts) = feed(s, Event::Closed);
    assert!(matches!(s, Stage::Finished));
    assert!(acts.is_empty());
}

#[test]
fn relay_decodes_invalid_bytes_lossily() {
    let line = relay_event(&OutputEvent::Stdout(vec![b'o', b'k', 0xff])).unwrap();
    assert_eq!(line.source, StreamSource::Stdout);
    assert_eq!(line.text, "Backend: ok\u{fffd}");
    let line = relay_event(&OutputEvent::Stderr(Vec::new())).unwrap();
    assert_eq!(line.source, StreamSource::Stderr);
    assert_eq!(line.text, "Backend Error: ");
    assert!(relay_event(&OutputEvent::Other).is_none());
}

#[test]
fn relay_line_tags_stream() {
    let l = relay_line(StreamSource::Stderr, "x");
    assert_eq!(l.source, StreamSource::Stderr);
    assert_eq!(l.text, "Backend Error: x");
}

#[test]
fn unrelated_events_leave_stage() {
    let (s, acts) = feed(Stage::Idle, Event::Closed);
    assert!(matches!(s, Stage::Idle));
    assert!(acts.is_empty());
    let (s, _) = feed(s, Event::Start(RunMode::Production));
    let (s, acts) = feed(s, Event::DirReady(true));
    assert!(matches!(s, Stage::AwaitResourceDir));
    assert!(acts.is_empty());
}
