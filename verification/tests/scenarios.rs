//! End-to-end scenarios: a scripted runner drives the session machine and
//! the tests check what it asked for and what ended in the ledger.

use undepend::session::Action;
use undepend::session::Event;
use undepend::session::Phase;
use undepend::session::SessionError;
use undepend::session::SessionState;

/// What the scripted runner should answer.
struct Script {
    rm_tool_ok: bool,
    status_stdout: String,
    status_stderr: String,
    probe_ok: bool,
    doc_flags: Vec<bool>,
    /// Manifest text per module directory; `None` means unreadable.
    manifest_for: Box<dyn Fn(&str) -> Option<String>>,
    /// Oracle verdict per (directory, pattern); `None` means tool missing.
    oracle: Box<dyn Fn(&str, &str) -> Option<bool>>,
    /// Whether the removal tool succeeds for (directory, name).
    remove_ok: Box<dyn Fn(&str, &str) -> bool>,
    /// Whether a stage passes: (directory, stage name, all_features).
    stage_ok: Box<dyn Fn(&str, &str, bool) -> bool>,
}

/// What happened, as the runner saw it.
#[derive(Default)]
struct Summary {
    /// One line per external step, in order.
    actions: Vec<String>,
    artifact: Option<(String, String)>,
    reported_no_unused: bool,
}

fn drive(st: &mut SessionState, script: &Script) -> Summary {
    let mut summary = Summary::default();
    let mut ev = Event::Tick;
    for _ in 0..100000 {
        if st.finished() {
            return summary;
        }
        let a = st.step(ev);
        ev = match a {
            Action::Continue => Event::Tick,
            Action::CheckRemovalTool => Event::ToolDone {
                ok: script.rm_tool_ok,
                detail: String::new(),
            },
            Action::QueryGitStatus { dir } => {
                summary.actions.push(format!("status {}", dir));
                Event::GitStatus {
                    stdout: script.status_stdout.clone(),
                    stderr: script.status_stderr.clone(),
                }
            }
            Action::RunProbe { dir } => {
                summary.actions.push(format!("probe {}", dir));
                Event::ProbeDone {
                    all_features_ok: script.probe_ok,
                    doc_flags: script.doc_flags.clone(),
                }
            }
            Action::RunCheck { dir, all_features } => {
                summary.actions.push(format!("check {} {}", dir, all_features));
                Event::ToolDone {
                    ok: (script.stage_ok)(&dir, "check", all_features),
                    detail: String::from("check detail"),
                }
            }
            Action::RunBuild { dir, all_features } => {
                summary.actions.push(format!("build {} {}", dir, all_features));
                Event::ToolDone {
                    ok: (script.stage_ok)(&dir, "build", all_features),
                    detail: String::from("build detail"),
                }
            }
            Action::RunDocTest { dir, all_features } => {
                summary.actions.push(format!("doctest {} {}", dir, all_features));
                Event::ToolDone {
                    ok: (script.stage_ok)(&dir, "doctest", all_features),
                    detail: String::from("doctest detail"),
                }
            }
            Action::ReadManifest { dir } => {
                summary.actions.push(format!("manifest {}", dir));
                Event::ManifestText { text: (script.manifest_for)(&dir) }
            }
            Action::RunOracle { dir, pattern } => {
                summary.actions.push(format!("oracle {} {}", dir, pattern));
                Event::OracleDone { verdict: (script.oracle)(&dir, &pattern) }
            }
            Action::RunRemove { dir, flag, name } => {
                summary.actions.push(format!(
                    "remove {} {} {}",
                    dir,
                    flag.as_deref().unwrap_or("-"),
                    name
                ));
                Event::ToolDone {
                    ok: (script.remove_ok)(&dir, &name),
                    detail: String::from("remove detail"),
                }
            }
            Action::RunReset { dir } => {
                summary.actions.push(format!("reset {}", dir));
                Event::ResetDone
            }
            Action::WriteArtifact { path, content } => {
                summary.artifact = Some((path, content));
                Event::Tick
            }
            Action::ReportNoUnused => {
                summary.reported_no_unused = true;
                Event::Tick
            }
        };
    }
    panic!("session did not finish");
}

fn default_script() -> Script {
    Script {
        rm_tool_ok: true,
        status_stdout: String::new(),
        status_stderr: String::new(),
        probe_ok: true,
        doc_flags: vec![true],
        manifest_for: Box::new(|_| Some(String::from("[dependencies]\n"))),
        oracle: Box::new(|_, _| Some(false)),
        remove_ok: Box::new(|_, _| true),
        stage_ok: Box::new(|_, _, _| true),
    }
}

fn new_session(modules: &[&str], global: &[&str]) -> SessionState {
    SessionState::new(
        String::from("/ws"),
        modules.iter().map(|m| String::from(*m)).collect(),
        global.iter().map(|g| String::from(*g)).collect(),
    )
}

fn count_prefix(summary: &Summary, prefix: &str) -> usize {
    summary.actions.iter().filter(|a| a.starts_with(prefix)).count()
}

#[test]
fn confirmed_removal_lands_in_ledger() {
    let mut st = new_session(&["/ws/foo"], &[]);
    let mut script = default_script();
    script.manifest_for = Box::new(|_| Some(String::from("[dependencies]\nbar = \"1.0\"\n")));
    let summary = drive(&mut st, &script);
    assert!(matches!(st.phase, Phase::Done));
    assert_eq!(count_prefix(&summary, "remove /ws/foo - bar"), 1);
    assert_eq!(count_prefix(&summary, "reset /ws/foo"), 1);
    assert_eq!(st.ledger.len(), 1);
    assert_eq!(st.ledger[0].module, "/ws/foo");
    assert_eq!(st.ledger[0].name, "bar");
    let (path, content) = summary.artifact.expect("artifact expected");
    assert_eq!(path, "unused.sh");
    assert_eq!(
        content,
        "\n# /ws/foo/Cargo.toml bar Normal\n(cd /ws/foo && cargo rm  bar)"
    );
    assert!(!summary.reported_no_unused);
}

#[test]
fn optional_dependency_triggers_nothing() {
    let mut st = new_session(&["/ws/foo"], &[]);
    let mut script = default_script();
    script.manifest_for = Box::new(|_| {
        Some(String::from(
            "[dependencies]\nbaz = { version = \"1\", optional = true }\n",
        ))
    });
    let summary = drive(&mut st, &script);
    assert!(matches!(st.phase, Phase::Done));
    assert_eq!(count_prefix(&summary, "oracle"), 0);
    assert_eq!(count_prefix(&summary, "remove"), 0);
    assert_eq!(count_prefix(&summary, "check /ws/foo"), 0);
    assert_eq!(st.ledger.len(), 0);
    assert!(summary.artifact.is_none());
    assert!(summary.reported_no_unused);
}

#[test]
fn check_failure_rolls_back_and_continues() {
    let mut st = new_session(&["/ws/foo"], &[]);
    let mut script = default_script();
    script.manifest_for =
        Box::new(|_| Some(String::from("[dependencies]\nqux = \"1\"\nquux = \"1\"\n")));
    // The workspace-root baseline passes; every candidate's compile-check
    // fails.
    script.stage_ok = Box::new(|dir, _, _| dir == "/ws");
    let summary = drive(&mut st, &script);
    assert!(matches!(st.phase, Phase::Done));
    assert_eq!(count_prefix(&summary, "remove /ws/foo - qux"), 1);
    assert_eq!(count_prefix(&summary, "remove /ws/foo - quux"), 1);
    assert_eq!(count_prefix(&summary, "reset /ws/foo"), 2);
    assert_eq!(count_prefix(&summary, "build /ws/foo"), 0);
    assert_eq!(st.ledger.len(), 0);
    assert!(summary.artifact.is_none());
    assert!(summary.reported_no_unused);
}

#[test]
fn failed_probe_forces_default_features() {
    let mut st = new_session(&["/ws/foo"], &[]);
    let mut script = default_script();
    script.probe_ok = false;
    script.manifest_for = Box::new(|_| Some(String::from("[dependencies]\nbar = \"1\"\n")));
    let summary = drive(&mut st, &script);
    assert!(matches!(st.phase, Phase::Done));
    for line in &summary.actions {
        if line.starts_with("check") || line.starts_with("build") || line.starts_with("doctest") {
            assert!(line.ends_with(" false"), "all-features stage ran: {}", line);
        }
    }
    assert_eq!(st.ledger.len(), 1);
}

#[test]
fn passing_probe_keeps_all_features() {
    let mut st = new_session(&["/ws/foo"], &[]);
    let mut script = default_script();
    script.manifest_for = Box::new(|_| Some(String::from("[dependencies]\nbar = \"1\"\n")));
    let summary = drive(&mut st, &script);
    for line in &summary.actions {
        if line.starts_with("check") || line.starts_with("build") || line.starts_with("doctest") {
            assert!(line.ends_with(" true"), "default-features stage ran: {}", line);
        }
    }
}

#[test]
fn no_surviving_candidates_writes_no_artifact() {
    let mut st = new_session(&["/ws/foo", "/ws/bar"], &["shim"]);
    let mut script = default_script();
    script.doc_flags = vec![true, true];
    // One candidate is globally ignored, the other is reported as used.
    script.manifest_for =
        Box::new(|_| Some(String::from("[dependencies]\nshim = \"1\"\nserde = \"1\"\n")));
    script.oracle = Box::new(|_, _| Some(true));
    let summary = drive(&mut st, &script);
    assert!(matches!(st.phase, Phase::Done));
    assert_eq!(count_prefix(&summary, "remove"), 0);
    assert_eq!(st.ledger.len(), 0);
    assert!(summary.artifact.is_none());
    assert!(summary.reported_no_unused);
}

#[test]
fn used_dependency_is_never_removed() {
    let mut st = new_session(&["/ws/foo"], &[]);
    let mut script = default_script();
    script.manifest_for = Box::new(|_| Some(String::from("[dependencies]\nbar = \"1\"\n")));
    script.oracle = Box::new(|_, pattern| Some(pattern == "bar::"));
    let summary = drive(&mut st, &script);
    assert_eq!(count_prefix(&summary, "oracle /ws/foo bar::"), 1);
    assert_eq!(count_prefix(&summary, "remove"), 0);
    assert_eq!(st.ledger.len(), 0);
    assert!(summary.reported_no_unused);
}

#[test]
fn module_local_ignore_list_excludes_candidate() {
    let mut st = new_session(&["/ws/foo"], &[]);
    let mut script = default_script();
    script.manifest_for = Box::new(|_| {
        Some(String::from(
            "[dependencies]\nbar = \"1\"\n\n[package.metadata.cargo-udeps.ignore]\nnormal = [\"bar\"]\n",
        ))
    });
    let summary = drive(&mut st, &script);
    assert_eq!(count_prefix(&summary, "oracle"), 0);
    assert_eq!(count_prefix(&summary, "remove"), 0);
    assert_eq!(st.ledger.len(), 0);
    assert!(summary.reported_no_unused);
}

#[test]
fn dev_dependency_removal_uses_dev_flag() {
    let mut st = new_session(&["/ws/foo"], &[]);
    let mut script = default_script();
    script.manifest_for = Box::new(|_| Some(String::from("[dev-dependencies]\ntrybuild = \"1\"\n")));
    let summary = drive(&mut st, &script);
    assert_eq!(count_prefix(&summary, "remove /ws/foo --dev trybuild"), 1);
    let (_, content) = summary.artifact.expect("artifact expected");
    assert_eq!(
        content,
        "\n# /ws/foo/Cargo.toml trybuild Dev\n(cd /ws/foo && cargo rm --dev trybuild)"
    );
}

#[test]
fn removal_tool_failure_is_candidate_local() {
    let mut st = new_session(&["/ws/foo"], &[]);
    let mut script = default_script();
    script.manifest_for =
        Box::new(|_| Some(String::from("[dependencies]\nqux = \"1\"\nquux = \"1\"\n")));
    script.remove_ok = Box::new(|_, name| name != "qux");
    let summary = drive(&mut st, &script);
    assert!(matches!(st.phase, Phase::Done));
    // The failed removal is rolled back without any pipeline stage; the next
    // candidate still runs and is confirmed.
    assert_eq!(count_prefix(&summary, "reset /ws/foo"), 2);
    assert_eq!(count_prefix(&summary, "check /ws/foo"), 1);
    assert_eq!(st.ledger.len(), 1);
    assert_eq!(st.ledger[0].name, "quux");
}

#[test]
fn module_without_doc_target_skips_doc_stage() {
    let mut st = new_session(&["/ws/foo"], &[]);
    let mut script = default_script();
    script.doc_flags = vec![false];
    script.manifest_for = Box::new(|_| Some(String::from("[dependencies]\nbar = \"1\"\n")));
    let summary = drive(&mut st, &script);
    assert_eq!(count_prefix(&summary, "doctest /ws/foo"), 0);
    assert_eq!(count_prefix(&summary, "doctest /ws "), 1);
    assert_eq!(st.ledger.len(), 1);
}

#[test]
fn dirty_checkout_aborts_before_any_work() {
    let mut st = new_session(&["/ws/foo"], &[]);
    let mut script = default_script();
    script.status_stdout = String::from(" M src/main.rs\n");
    let summary = drive(&mut st, &script);
    assert!(matches!(st.phase, Phase::Failed));
    assert!(matches!(st.error, Some(SessionError::DirtyCheckout)));
    assert_eq!(count_prefix(&summary, "probe"), 0);
    assert_eq!(count_prefix(&summary, "manifest"), 0);
}

#[test]
fn missing_removal_tool_aborts() {
    let mut st = new_session(&["/ws/foo"], &[]);
    let mut script = default_script();
    script.rm_tool_ok = false;
    let summary = drive(&mut st, &script);
    assert!(matches!(st.phase, Phase::Failed));
    assert!(matches!(st.error, Some(SessionError::RemovalToolMissing)));
    assert_eq!(count_prefix(&summary, "status"), 0);
}

#[test]
fn missing_oracle_tool_aborts() {
    let mut st = new_session(&["/ws/foo"], &[]);
    let mut script = default_script();
    script.manifest_for = Box::new(|_| Some(String::from("[dependencies]\nbar = \"1\"\n")));
    script.oracle = Box::new(|_, _| None);
    let summary = drive(&mut st, &script);
    assert!(matches!(st.phase, Phase::Failed));
    assert!(matches!(st.error, Some(SessionError::OracleMissing)));
    assert_eq!(count_prefix(&summary, "remove"), 0);
}

#[test]
fn unreadable_manifest_aborts() {
    let mut st = new_session(&["/ws/foo"], &[]);
    let mut script = default_script();
    script.manifest_for = Box::new(|_| None);
    drive(&mut st, &script);
    assert!(matches!(st.phase, Phase::Failed));
    assert!(matches!(st.error, Some(SessionError::ManifestUnreadable)));
}

#[test]
fn malformed_manifest_aborts() {
    let mut st = new_session(&["/ws/foo"], &[]);
    let mut script = default_script();
    script.manifest_for = Box::new(|_| Some(String::from("[dependencies\nbroken")));
    drive(&mut st, &script);
    assert!(matches!(st.phase, Phase::Failed));
    assert!(matches!(st.error, Some(SessionError::ManifestInvalid)));
}

#[test]
fn baseline_failure_aborts_with_outcome() {
    let mut st = new_session(&["/ws/foo"], &[]);
    let mut script = default_script();
    script.stage_ok = Box::new(|dir, stage, _| !(dir == "/ws" && stage == "build"));
    let summary = drive(&mut st, &script);
    assert!(matches!(st.phase, Phase::Failed));
    assert!(matches!(st.error, Some(SessionError::BaselineFailed(_))));
    assert_eq!(count_prefix(&summary, "manifest"), 0);
}

#[test]
fn groups_are_processed_normal_then_dev_then_build() {
    let mut st = new_session(&["/ws/foo"], &[]);
    let mut script = default_script();
    script.manifest_for = Box::new(|_| {
        Some(String::from(
            "[dependencies]\na = \"1\"\n\n[dev-dependencies]\nb = \"1\"\n\n[build-dependencies]\nc = \"1\"\n",
        ))
    });
    let summary = drive(&mut st, &script);
    let removes: Vec<&String> = summary
        .actions
        .iter()
        .filter(|a| a.starts_with("remove"))
        .collect();
    assert_eq!(removes.len(), 3);
    assert_eq!(removes[0], "remove /ws/foo - a");
    assert_eq!(removes[1], "remove /ws/foo --dev b");
    assert_eq!(removes[2], "remove /ws/foo --build c");
    assert_eq!(st.ledger.len(), 3);
    let (_, content) = summary.artifact.expect("artifact expected");
    assert_eq!(
        content,
        "\n# /ws/foo/Cargo.toml a Normal\n(cd /ws/foo && cargo rm  a)\
         \n# /ws/foo/Cargo.toml b Dev\n(cd /ws/foo && cargo rm --dev b)\
         \n# /ws/foo/Cargo.toml c Build\n(cd /ws/foo && cargo rm --build c)"
    );
}
