//! Unit tests for the library's pieces: group identifiers, the ignore
//! policy, the usage pattern, the manifest reader, the pipeline routing, the
//! ledger rendering, command argument lists and member-identifier parsing.

use undepend::commands::build_args;
use undepend::commands::check_args;
use undepend::commands::doc_test_args;
use undepend::commands::oracle_args;
use undepend::commands::remove_args;
use undepend::commands::removal_tool_probe_args;
use undepend::commands::reset_args;
use undepend::commands::status_args;
use undepend::groups::DependencyGroup;
use undepend::ledger::render_replay;
use undepend::manifest::read_group;
use undepend::oracle::usage_pattern;
use undepend::outcome::VerificationOutcome;
use undepend::pipeline::PipelineRun;
use undepend::pipeline::PipelineStep;
use undepend::pipeline::Stage;
use undepend::policy::IgnorePolicy;
use undepend::workspace::member_dir;

#[test]
fn group_identifiers() {
    assert_eq!(DependencyGroup::Normal.dep_group(), "dependencies");
    assert_eq!(DependencyGroup::Dev.dep_group(), "dev-dependencies");
    assert_eq!(DependencyGroup::Build.dep_group(), "build-dependencies");
    assert_eq!(DependencyGroup::Normal.ignore_group(), "normal");
    assert_eq!(DependencyGroup::Dev.ignore_group(), "dev");
    assert_eq!(DependencyGroup::Build.ignore_group(), "build");
    assert_eq!(DependencyGroup::Normal.extra_flag(), None);
    assert_eq!(DependencyGroup::Dev.extra_flag(), Some("--dev"));
    assert_eq!(DependencyGroup::Build.extra_flag(), Some("--build"));
    assert_eq!(DependencyGroup::Normal.label(), "Normal");
    assert_eq!(DependencyGroup::Dev.label(), "Dev");
    assert_eq!(DependencyGroup::Build.label(), "Build");
}

fn strings(v: &[&str]) -> Vec<String> {
    v.iter().map(|s| String::from(*s)).collect()
}

#[test]
fn policy_rules() {
    let text = "[dependencies]\nplain = \"1\"\nopt = { version = \"1\", optional = true }\nshim = \"1\"\nlocal = \"1\"\n\n[package.metadata.cargo-udeps.ignore]\nnormal = [\"local\"]\n";
    let reading = read_group(text, DependencyGroup::Normal).expect("well-formed");
    let policy = IgnorePolicy::new(strings(&["shim"]));
    let verdicts: Vec<(String, bool)> = reading
        .entries
        .iter()
        .map(|e| (e.name.clone(), policy.should_skip(&reading.local_ignores, e)))
        .collect();
    assert_eq!(
        verdicts,
        vec![
            (String::from("plain"), false),
            (String::from("opt"), true),
            (String::from("shim"), true),
            (String::from("local"), true),
        ]
    );
}

#[test]
fn manifest_reader_per_group() {
    let text = "[dependencies]\na = \"1\"\nb = { version = \"1\", optional = true }\n\n[dev-dependencies]\nc = \"1\"\n\n[package.metadata.cargo-udeps.ignore]\nnormal = [\"x\"]\ndev = [\"y\", \"z\"]\n";
    let normal = read_group(text, DependencyGroup::Normal).expect("well-formed");
    let names: Vec<(String, bool)> = normal
        .entries
        .iter()
        .map(|e| (e.name.clone(), e.optional))
        .collect();
    assert_eq!(
        names,
        vec![(String::from("a"), false), (String::from("b"), true)]
    );
    assert_eq!(normal.local_ignores, strings(&["x"]));

    let dev = read_group(text, DependencyGroup::Dev).expect("well-formed");
    assert_eq!(dev.entries.len(), 1);
    assert_eq!(dev.entries[0].name, "c");
    assert!(!dev.entries[0].optional);
    assert_eq!(dev.local_ignores, strings(&["y", "z"]));

    let build = read_group(text, DependencyGroup::Build).expect("well-formed");
    assert_eq!(build.entries.len(), 0);
    assert_eq!(build.local_ignores.len(), 0);
}

#[test]
fn manifest_reader_rejects_malformed_text() {
    assert!(read_group("[dependencies\nbroken = ", DependencyGroup::Normal).is_err());
}

#[test]
fn manifest_reader_keeps_declaration_order() {
    let text = "[dependencies]\nzeta = \"1\"\nalpha = \"1\"\nmid = \"1\"\n";
    let reading = read_group(text, DependencyGroup::Normal).expect("well-formed");
    let names: Vec<String> = reading.entries.iter().map(|e| e.name.clone()).collect();
    assert_eq!(names, strings(&["zeta", "alpha", "mid"]));
}

#[test]
fn usage_pattern_normalizes_hyphens() {
    assert_eq!(usage_pattern("serde-json"), "serde_json::");
    assert_eq!(usage_pattern("foo"), "foo::");
    assert_eq!(usage_pattern(""), "::");
    assert_eq!(usage_pattern("a-b-c"), "a_b_c::");
}

#[test]
fn pipeline_routes_stage_results() {
    let run = PipelineRun::start(true, true);
    assert_eq!(run.stage, Stage::Check);
    let step = run.on_result(true, String::new());
    let run = match step {
        PipelineStep::Continue(r) => r,
        PipelineStep::Done(_) => panic!("check pass must continue"),
    };
    assert_eq!(run.stage, Stage::Build);
    let step = run.on_result(true, String::new());
    let run = match step {
        PipelineStep::Continue(r) => r,
        PipelineStep::Done(_) => panic!("build pass must continue to the doc stage"),
    };
    assert_eq!(run.stage, Stage::DocTest);
    match run.on_result(true, String::new()) {
        PipelineStep::Done(VerificationOutcome::Success) => {}
        _ => panic!("doc pass must succeed"),
    }
}

#[test]
fn pipeline_failures_name_their_stage() {
    let run = PipelineRun::start(false, true);
    match run.on_result(false, String::from("c")) {
        PipelineStep::Done(VerificationOutcome::CheckFailed(d)) => assert_eq!(d, "c"),
        _ => panic!("check failure expected"),
    }
    let run = PipelineRun { stage: Stage::Build, ..PipelineRun::start(false, true) };
    match run.on_result(false, String::from("b")) {
        PipelineStep::Done(VerificationOutcome::BuildFailed(d)) => assert_eq!(d, "b"),
        _ => panic!("build failure expected"),
    }
    let run = PipelineRun { stage: Stage::DocTest, ..PipelineRun::start(false, true) };
    match run.on_result(false, String::from("d")) {
        PipelineStep::Done(VerificationOutcome::DocCompileFailed(d)) => assert_eq!(d, "d"),
        _ => panic!("doc failure expected"),
    }
}

#[test]
fn pipeline_without_doc_target_ends_at_build() {
    let run = PipelineRun::start(false, false);
    let step = run.on_result(true, String::new());
    let run = match step {
        PipelineStep::Continue(r) => r,
        PipelineStep::Done(_) => panic!("check pass must continue"),
    };
    match run.on_result(true, String::new()) {
        PipelineStep::Done(VerificationOutcome::Success) => {}
        _ => panic!("build pass must finish the run"),
    }
}

#[test]
fn replay_rendering_is_exact() {
    assert_eq!(
        render_replay(
            &String::from("/w/m"),
            &String::from("dep"),
            DependencyGroup::Dev
        ),
        "\n# /w/m/Cargo.toml dep Dev\n(cd /w/m && cargo rm --dev dep)"
    );
    assert_eq!(
        render_replay(
            &String::from("/w/m"),
            &String::from("dep"),
            DependencyGroup::Normal
        ),
        "\n# /w/m/Cargo.toml dep Normal\n(cd /w/m && cargo rm  dep)"
    );
}

#[test]
fn command_argument_lists() {
    assert_eq!(check_args(false), strings(&["check", "--all-targets"]));
    assert_eq!(
        check_args(true),
        strings(&["check", "--all-targets", "--all-features"])
    );
    assert_eq!(
        build_args(false),
        strings(&["build", "--all-targets", "--release"])
    );
    assert_eq!(
        doc_test_args(false),
        strings(&[
            "test",
            "--doc",
            "--release",
            "bet_u_dont_have_a_test_called_this"
        ])
    );
    assert_eq!(
        remove_args(&Some(String::from("--build")), &String::from("dep")),
        strings(&["rm", "--build", "dep"])
    );
    assert_eq!(
        remove_args(&None, &String::from("dep")),
        strings(&["rm", "dep"])
    );
    assert_eq!(removal_tool_probe_args(), strings(&["rm", "--help"]));
    assert_eq!(status_args(), strings(&["status", "--porcelain"]));
    assert_eq!(reset_args(), strings(&["reset", "--hard"]));
    assert_eq!(
        oracle_args(&String::from("dep::"), &String::from("/m")),
        strings(&["--type", "rust", "-q", "dep::", "/m"])
    );
}

#[test]
fn member_identifier_parsing() {
    assert_eq!(
        member_dir("path+file:///home/u/ws/foo#0.1.0"),
        Some(String::from("/home/u/ws/foo"))
    );
    assert_eq!(
        member_dir("path+file:///p/q#name@1.0.0"),
        Some(String::from("/p/q"))
    );
    assert_eq!(member_dir("registry+https://example#x@1.0.0"), None);
    assert_eq!(member_dir("path+file:///p/q"), None);
    assert_eq!(member_dir(""), None);
}
