use pancakes::process::{
    first_output_text, install_outcome, python_list_args, status_after_install, update_shell_args,
    uv_install_command, uv_status_from_runs, ChildMessage, ChildOutMessage, CompletedProgram,
    ExitStatus, ProgramError, RunError, RunOutcome, UVVerifyResult,
};

fn exit(code: Option<i32>) -> ExitStatus {
    ExitStatus { code }
}

fn program(lines: &[&str], code: Option<i32>) -> CompletedProgram {
    CompletedProgram {
        messages: lines.iter().map(|l| ChildOutMessage::StdOut(l.to_string())).collect(),
        exit_status: exit(code),
    }
}

#[test]
fn exit_success_only_for_zero() {
    assert!(exit(Some(0)).success());
    assert!(!exit(Some(1)).success());
    assert!(!exit(None).success());
}

#[test]
fn completed_program_from_messages() {
    let v = vec![
        ChildMessage::StdOut(String::from("a")),
        ChildMessage::StdErr(String::from("b")),
        ChildMessage::Exit(exit(Some(0))),
    ];
    let p = CompletedProgram::try_from(v).unwrap();
    assert_eq!(p.messages.len(), 2);
    assert!(matches!(&p.messages[0], ChildOutMessage::StdOut(t) if t == "a"));
    assert!(matches!(&p.messages[1], ChildOutMessage::StdErr(t) if t == "b"));
    assert_eq!(p.messages[1].text(), "b");
    assert_eq!(p.exit_status, exit(Some(0)));
    assert!(p.was_successful());
}

#[test]
fn completed_program_only_exit() {
    let p = CompletedProgram::try_from(vec![ChildMessage::Exit(exit(Some(2)))]).unwrap();
    assert!(p.messages.is_empty());
    assert!(!p.was_successful());
}

#[test]
fn completed_program_errors() {
    assert_eq!(CompletedProgram::try_from(vec![]).unwrap_err(), ProgramError::MissingExit);
    assert_eq!(
        CompletedProgram::try_from(vec![ChildMessage::StdOut(String::from("x"))]).unwrap_err(),
        ProgramError::MissingExit
    );
    let e = CompletedProgram::try_from(vec![
        ChildMessage::Exit(exit(Some(0))),
        ChildMessage::StdOut(String::from("x")),
        ChildMessage::Exit(exit(Some(0))),
    ])
    .unwrap_err();
    assert_eq!(e, ProgramError::EarlyExit);
    assert_eq!(e.message(), "Only the last ChildMessage in the vec can be Exit");
    assert_eq!(ProgramError::MissingExit.message(), "Last ChildMessage must be an ExitStatus");
}

#[test]
fn program_round_trip() {
    let out = vec![String::from("one"), String::from("two")];
    let mut v: Vec<ChildMessage> = out.iter().map(|s| ChildMessage::StdErr(s.clone())).collect();
    v.push(ChildMessage::Exit(exit(Some(7))));
    let p = CompletedProgram::try_from(v).unwrap();
    let texts: Vec<&str> = p.messages.iter().map(|m| m.text()).collect();
    assert_eq!(texts, vec!["one", "two"]);
    assert_eq!(p.exit_status.code, Some(7));
}

#[test]
fn uv_verdicts() {
    let ok = || RunOutcome::Finished(program(&["uv 0.5"], Some(0)));
    let bad = || RunOutcome::Finished(program(&[], Some(1)));
    assert_eq!(uv_status_from_runs(&RunOutcome::NotFound, &None), UVVerifyResult::NotFound);
    assert_eq!(uv_status_from_runs(&RunOutcome::Failed, &None), UVVerifyResult::Error);
    assert_eq!(uv_status_from_runs(&ok(), &Some(ok())), UVVerifyResult::Ready);
    assert_eq!(uv_status_from_runs(&ok(), &Some(RunOutcome::Failed)), UVVerifyResult::Ready);
    assert_eq!(uv_status_from_runs(&ok(), &Some(bad())), UVVerifyResult::Error);
    assert_eq!(uv_status_from_runs(&bad(), &Some(ok())), UVVerifyResult::Error);
    assert_eq!(uv_status_from_runs(&ok(), &None), UVVerifyResult::Ready);
}

#[test]
fn install_command_per_system() {
    let (cmd, args) = uv_install_command(true);
    assert_eq!(cmd, "powershell");
    assert_eq!(
        args,
        vec![
            "-ExecutionPolicy",
            "ByPass",
            "-Command",
            "$ProgressPreference = 'SilentlyContinue'; irm https://astral.sh/uv/install.ps1 | iex"
        ]
    );
    let (cmd, args) = uv_install_command(false);
    assert_eq!(cmd, "sh");
    assert_eq!(args, vec!["-c", "curl -LsSf https://astral.sh/uv/install.sh | sh"]);
}

#[test]
fn install_outcomes() {
    assert_eq!(install_outcome(&program(&[], Some(0))), Ok(()));
    let e = install_outcome(&program(&[], Some(3))).unwrap_err();
    assert_eq!(e, RunError::NonzeroExit);
    assert_eq!(e.message(), "Process returned nonzero exit code");
    assert_eq!(status_after_install(true), UVVerifyResult::Ready);
    assert_eq!(status_after_install(false), UVVerifyResult::Error);
}

#[test]
fn first_output() {
    assert_eq!(first_output_text(&program(&["[]", "x"], Some(0))), Ok("[]"));
    let e = first_output_text(&program(&[], Some(0))).unwrap_err();
    assert_eq!(e, RunError::NoOutput);
    assert_eq!(e.message(), "First child msg of uv version list must be json");
}

#[test]
fn uv_arguments() {
    assert_eq!(python_list_args(), vec!["python", "list", "--output-format", "json"]);
    assert_eq!(update_shell_args(), vec!["python", "update-shell"]);
}
