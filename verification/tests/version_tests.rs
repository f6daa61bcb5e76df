use pancakes::commands::{
    after_update_shell, install_python_args, is_store_redirector, python_version_code, setup_venv_args, ShellFollowUp,
};
use pancakes::process::{ChildOutMessage, CompletedProgram, ExitStatus, RunOutcome};
use pancakes::version::{
    python_probe_outcome, version_from_output, CurrentReleaseData, PyVersion, UVRawVersionOutput, VersionError,
};

fn raw(version: &str, path: Option<&str>) -> UVRawVersionOutput {
    UVRawVersionOutput { version: version.to_string(), url: None, path: path.map(|p| p.to_string()) }
}

#[test]
fn parse_normalizes() {
    let v = PyVersion::parse("3.12.0").unwrap();
    assert_eq!(v.to_string(), "3.12.0");
    assert!(v.stable);
    let v = PyVersion::parse("3.13.0rc1").unwrap();
    assert_eq!(v.text, "3.13.0rc1");
    assert!(!v.stable);
    let v = PyVersion::parse("3.14.0a2").unwrap();
    assert!(!v.stable);
    assert!(PyVersion::parse("not a version").is_none());
}

#[test]
fn versions_compare_as_pep440() {
    let a = PyVersion::parse("3.12").unwrap();
    let b = PyVersion::parse("3.12.0").unwrap();
    let c = PyVersion::parse("3.12.1").unwrap();
    assert!(a.same_as(&b));
    assert!(!a.same_as(&c));
}

#[test]
fn release_data_from_uv_list() {
    let out = vec![
        raw("cpython-3.14.0a2-linux", None),
        raw("3.14.0a2", None),
        raw("bogus", None),
        raw("3.13.1", None),
        raw("3.12.7", Some("/usr/bin/python3.12")),
        raw("3.11.0", Some("/usr/bin/python3.11")),
    ];
    let d = CurrentReleaseData::from_uv_raw_version_output(out);
    assert_eq!(d.latest_release.unwrap().text, "3.13.1");
    assert_eq!(d.current_version.unwrap().text, "3.12.7");
}

#[test]
fn release_data_installed_entry_unreadable() {
    let out = vec![raw("3.13.0", None), raw("weird", Some("/x")), raw("3.12.0", Some("/y"))];
    let d = CurrentReleaseData::from_uv_raw_version_output(out);
    assert_eq!(d.latest_release.unwrap().text, "3.13.0");
    assert!(d.current_version.is_none());
}

#[test]
fn release_data_empty() {
    let d = CurrentReleaseData::from_uv_raw_version_output(vec![]);
    assert!(d.latest_release.is_none());
    assert!(d.current_version.is_none());
}

fn prog(lines: &[&str]) -> CompletedProgram {
    CompletedProgram {
        messages: lines.iter().map(|l| ChildOutMessage::StdOut(l.to_string())).collect(),
        exit_status: ExitStatus { code: Some(0) },
    }
}

#[test]
fn version_printed_by_python() {
    assert_eq!(version_from_output(&prog(&["3.12.3"])).unwrap().unwrap().text, "3.12.3");
    assert!(version_from_output(&prog(&[])).unwrap().is_none());
    assert_eq!(version_from_output(&prog(&["Python was not found"])).unwrap_err(), VersionError::NotAVersion);
}

#[test]
fn uv_command_arguments() {
    let v = PyVersion::parse("3.13.1").unwrap();
    assert_eq!(
        install_python_args(&v),
        vec!["python", "install", "3.13.1", "-r", "--default", "--preview-features", "python-install-default"]
    );
    assert_eq!(setup_venv_args("/home/u/proj", &v, false), vec!["venv", "/home/u/proj/.venv", "-p", "3.13.1"]);
    assert_eq!(
        python_version_code(),
        "import sys; print(f'{sys.version_info.major}.{sys.version_info.minor}.{sys.version_info.micro}')"
    );
}

#[test]
fn store_redirector() {
    assert!(is_store_redirector(r"C:\Users\a\AppData\Local\Microsoft\WindowsApps\python.exe"));
    assert!(!is_store_redirector("/usr/bin/python3"));
}

#[test]
fn parse_spells_normalized_form() {
    let v = PyVersion::parse("V3.12.0RC1").unwrap();
    assert_eq!(v.text, "3.12.0rc1");
    assert!(!v.stable);
    let v = PyVersion::parse("3.12.0.post1").unwrap();
    assert_eq!(v.text, "3.12.0.post1");
    assert!(v.stable);
    assert!(!PyVersion::parse("3.14.0.dev2").unwrap().stable);
}

#[test]
fn python_probe_outcomes() {
    assert!(python_probe_outcome(&RunOutcome::NotFound).unwrap().is_none());
    assert_eq!(python_probe_outcome(&RunOutcome::Failed).unwrap_err(), VersionError::RunFailed);
    let v = python_probe_outcome(&RunOutcome::Finished(prog(&["3.11.9"]))).unwrap().unwrap();
    assert_eq!(v.text, "3.11.9");
    assert!(python_probe_outcome(&RunOutcome::Finished(prog(&[]))).unwrap().is_none());
    assert_eq!(
        python_probe_outcome(&RunOutcome::Finished(prog(&["oops"]))).unwrap_err(),
        VersionError::NotAVersion
    );
}

#[test]
fn shell_follow_up() {
    assert_eq!(after_update_shell(true, true), ShellFollowUp::Done);
    assert_eq!(after_update_shell(true, false), ShellFollowUp::Done);
    assert_eq!(after_update_shell(false, true), ShellFollowUp::WriteZshrc);
    assert_eq!(after_update_shell(false, false), ShellFollowUp::Failed);
}

#[test]
fn version_equals_itself_only_when_read() {
    let v = PyVersion::parse("3.12.2").unwrap();
    assert!(v.same_as(&v.duplicate()));
    let bogus = PyVersion { text: String::from("nope"), stable: true };
    assert!(!bogus.same_as(&bogus.duplicate()));
}
