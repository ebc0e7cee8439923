use proc_macro2::TokenStream;
use reflexive::provisioning::Provisioning;
use reflexive::{Action, Event, Sandbox, SandboxError};

fn strings(words: &[&str]) -> Vec<String> {
    words.iter().map(|w| w.to_string()).collect()
}

fn exited(success: bool, stderr: &str) -> Event {
    Event::Exited { success, stderr: stderr.to_string() }
}

/// Drives an evaluation of `expr` in `sb` whose build succeeds and whose
/// program writes `artifact`, converting it as a `T`.
fn evaluate_with<T: std::str::FromStr>(sb: &Sandbox, expr: &str, artifact: &str) -> Result<T, SandboxError> {
    let (mut ev, first) = sb.evaluate_source(expr);
    assert!(matches!(first, Action::WriteFile { .. }));
    let a = ev.step(Event::Done);
    assert_eq!(a, Action::RunCargo { dir: sb.root_dir().to_string(), args: strings(&["run"]) });
    let a = ev.step(exited(true, ""));
    assert_eq!(a, Action::ReadFile(format!("{}/output", sb.root_dir())));
    let a = ev.step(Event::Text(artifact.to_string()));
    let parsed = match a {
        Action::Parse(t) => t.parse::<T>().ok(),
        other => panic!("unexpected step {:?}", other),
    };
    let a = ev.step(Event::Parsed(parsed.is_some()));
    assert_eq!(a, Action::RemoveFile(format!("{}/output", sb.root_dir())));
    match ev.step(Event::Done) {
        Action::Finish(Ok(())) => Ok(parsed.unwrap()),
        Action::Finish(Err(e)) => Err(e),
        other => panic!("unexpected step {:?}", other),
    }
}

#[test]
fn provisioning_appends_workspace_section() {
    let (mut p, a) = Provisioning::start("/out", "calc");
    assert_eq!(a, Action::CreateDir("/out/calc".to_string()));
    let a = p.step(Event::Done);
    assert_eq!(
        a,
        Action::RunCargo { dir: "/out/calc".to_string(), args: strings(&["new", "sandbox", "--vcs", "none"]) }
    );
    let a = p.step(exited(true, ""));
    assert_eq!(a, Action::ReadFile("/out/calc/sandbox/Cargo.toml".to_string()));
    let a = p.step(Event::Text("[package]\nname = \"sandbox\"\n".to_string()));
    assert_eq!(
        a,
        Action::AppendFile {
            path: "/out/calc/sandbox/Cargo.toml".to_string(),
            text: "\n[workspace]\n".to_string()
        }
    );
    assert!(!p.is_finished());
    assert_eq!(p.step(Event::Done), Action::Finish(Ok(())));
    assert!(p.is_finished());
    assert_eq!(p.root(), "/out/calc/sandbox");
}

#[test]
fn provisioning_skips_isolated_manifest() {
    let (mut p, _) = Provisioning::start("/out", "calc");
    p.step(Event::Done);
    p.step(exited(true, ""));
    let a = p.step(Event::Text("[package]\n[workspace]\n".to_string()));
    assert_eq!(a, Action::Finish(Ok(())));
}

#[test]
fn provisioning_reports_scaffold_failure() {
    let (mut p, _) = Provisioning::start("/out", "calc");
    p.step(Event::Done);
    let a = p.step(exited(false, "error: destination exists"));
    assert_eq!(a, Action::Finish(Err(SandboxError::ToolFailure("error: destination exists".to_string()))));
}

#[test]
fn provisioning_reports_io_failure() {
    let (mut p, _) = Provisioning::start("/out", "calc");
    let a = p.step(Event::Failed("permission denied".to_string()));
    assert_eq!(a, Action::Finish(Err(SandboxError::Io("permission denied".to_string()))));
    assert!(!p.accepts(&Event::Done));
}

#[test]
fn install_adds_each_name_in_order() {
    let sb = Sandbox::at_root("/out/calc/sandbox");
    let (mut i, a) = sb.install(strings(&["serde", "rand"]));
    assert_eq!(a, Action::RunCargo { dir: "/out/calc/sandbox".to_string(), args: strings(&["add", "serde"]) });
    let a = i.step(exited(true, ""));
    assert_eq!(a, Action::RunCargo { dir: "/out/calc/sandbox".to_string(), args: strings(&["add", "rand"]) });
    assert!(!i.is_finished());
    assert_eq!(i.step(exited(true, "")), Action::Finish(Ok(())));
    assert!(i.is_finished());
}

#[test]
fn install_of_nothing_finishes_at_once() {
    let sb = Sandbox::at_root("/r");
    let (i, a) = sb.install(Vec::new());
    assert_eq!(a, Action::Finish(Ok(())));
    assert!(i.is_finished());
}

#[test]
fn install_stops_at_first_failure() {
    let sb = Sandbox::at_root("/r");
    let (mut i, _) = sb.install(strings(&["nonexistent-crate", "serde"]));
    let a = i.step(exited(false, "error: not found"));
    assert_eq!(a, Action::Finish(Err(SandboxError::ToolFailure("error: not found".to_string()))));
    assert!(!i.accepts(&exited(true, "")));
}

#[test]
fn installs_in_two_batches_add_both() {
    let sb = Sandbox::at_root("/r");
    let mut seen = Vec::new();
    for batch in [strings(&["serde"]), strings(&["rand", "itoa"])] {
        let (mut i, mut a) = sb.install(batch);
        while let Action::RunCargo { args, .. } = a {
            seen.push(args[1].clone());
            a = i.step(exited(true, ""));
        }
        assert_eq!(a, Action::Finish(Ok(())));
    }
    assert_eq!(seen, strings(&["serde", "rand", "itoa"]));
}

#[test]
fn evaluate_sum_as_u32() {
    let sb = Sandbox::at_root("/out/calc/sandbox");
    let (_, first) = sb.evaluate_source("2 + 2");
    match first {
        Action::WriteFile { path, text } => {
            assert_eq!(path, "/out/calc/sandbox/src/main.rs");
            assert!(text.contains("{ 2 + 2 }"));
        }
        other => panic!("unexpected step {:?}", other),
    }
    let x: u32 = evaluate_with(&sb, "2 + 2", "4").unwrap();
    assert_eq!(x, 4);
}

#[test]
fn evaluate_owned_text() {
    let sb = Sandbox::at_root("/out/calc/sandbox");
    let s: String = evaluate_with(&sb, "\"hi\".to_owned()", "hi").unwrap();
    assert_eq!(s, "hi");
}

#[test]
fn evaluate_round_trips_values() {
    let sb = Sandbox::at_root("/r");
    for v in [0i64, -7, i64::MAX] {
        let got: i64 = evaluate_with(&sb, &v.to_string(), &v.to_string()).unwrap();
        assert_eq!(got, v);
    }
}

#[test]
fn evaluate_reports_parse_error() {
    let sb = Sandbox::at_root("/r");
    let r: Result<u32, SandboxError> = evaluate_with(&sb, "\"x\"", "x");
    assert_eq!(r, Err(SandboxError::ParseError));
}

#[test]
fn parse_error_wins_over_failed_cleanup() {
    let sb = Sandbox::at_root("/r");
    let (mut ev, _) = sb.evaluate_source("1");
    ev.step(Event::Done);
    ev.step(exited(true, ""));
    ev.step(Event::Text("x".to_string()));
    ev.step(Event::Parsed(false));
    let a = ev.step(Event::Failed("busy".to_string()));
    assert_eq!(a, Action::Finish(Err(SandboxError::ParseError)));
}

#[test]
fn build_failure_is_evaluation_failed() {
    let sb = Sandbox::at_root("/r");
    let (mut ev, _) = sb.evaluate_source("undefined_name");
    ev.step(Event::Done);
    let a = ev.step(exited(false, "error[E0425]: cannot find value"));
    assert_eq!(
        a,
        Action::Finish(Err(SandboxError::EvaluationFailed("error[E0425]: cannot find value".to_string())))
    );
    assert!(ev.is_finished());
}

#[test]
fn missing_artifact_is_io_error() {
    let sb = Sandbox::at_root("/r");
    let (mut ev, _) = sb.evaluate_source("1");
    ev.step(Event::Done);
    ev.step(exited(true, ""));
    let a = ev.step(Event::Failed("No such file".to_string()));
    assert_eq!(a, Action::Finish(Err(SandboxError::Io("No such file".to_string()))));
}

#[test]
fn cleanup_precedes_success_and_next_evaluation_succeeds() {
    let sb = Sandbox::at_root("/r");
    let first: u32 = evaluate_with(&sb, "1 + 1", "2").unwrap();
    let second: u32 = evaluate_with(&sb, "3 * 3", "9").unwrap();
    assert_eq!((first, second), (2, 9));
}

#[test]
fn evaluate_tokens_embeds_their_source() {
    let sb = Sandbox::at_root("/r");
    let expr: TokenStream = "2 + 2".parse().unwrap();
    let (_, first) = sb.evaluate(&expr);
    match first {
        Action::WriteFile { path, text } => {
            assert_eq!(path, "/r/src/main.rs");
            assert!(text.contains("{ 2 + 2 }"));
        }
        other => panic!("unexpected step {:?}", other),
    }
}

#[test]
fn accepts_matches_awaited_report() {
    let sb = Sandbox::at_root("/r");
    let (mut ev, _) = sb.evaluate_source("1");
    assert!(ev.accepts(&Event::Done));
    assert!(!ev.accepts(&Event::Parsed(true)));
    ev.step(Event::Done);
    assert!(ev.accepts(&exited(true, "")));
    assert!(!ev.accepts(&Event::Text(String::new())));
}

#[test]
fn sandbox_keeps_its_root() {
    let sb = Sandbox::at_root("/out/calc/sandbox");
    assert_eq!(sb.root_dir(), "/out/calc/sandbox");
    let guard = sb.guard().lock().unwrap();
    drop(guard);
}
