use vstd::prelude::*;
use vstd::string::*;

verus! {

/// How a child process ended: the code it exited with, or `None` when it
/// did not exit by itself (for instance, when a signal ended it).
#[derive(Debug, Clone, Copy, PartialEq, Eq, Structural)]
pub struct ExitStatus {
    pub code: Option<i32>,
}

impl ExitStatus {
    /// Whether the process ended successfully, that is, exited with code 0.
    pub fn success(&self) -> (r: bool)
        ensures
            r == (self.code == Some(0i32)),
    {
        match self.code {
            Some(c) => c == 0,
            None => false,
        }
    }
}

/// A message from a running child process: a line of its standard output,
/// a line of its standard error, or its end.
#[derive(Debug)]
pub enum ChildMessage {
    StdOut(String),
    StdErr(String),
    Exit(ExitStatus),
}

/// A line of output of a child process.
#[derive(Debug)]
pub enum ChildOutMessage {
    StdOut(String),
    StdErr(String),
}

/// The line that an output message carries.
pub open spec fn out_text(m: ChildOutMessage) -> Seq<char> {
    match m {
        ChildOutMessage::StdOut(t) => t@,
        ChildOutMessage::StdErr(t) => t@,
    }
}

impl ChildOutMessage {
    /// The line of output, whichever stream it came from.
    pub fn text(&self) -> (r: &str)
        ensures
            r@ == out_text(*self),
    {
        match self {
            ChildOutMessage::StdOut(t) => t.as_str(),
            ChildOutMessage::StdErr(t) => t.as_str(),
        }
    }
}

/// The output message that a child message stands for, unless it is the end.
pub open spec fn as_out(m: ChildMessage) -> Option<ChildOutMessage> {
    match m {
        ChildMessage::StdOut(t) => Some(ChildOutMessage::StdOut(t)),
        ChildMessage::StdErr(t) => Some(ChildOutMessage::StdErr(t)),
        ChildMessage::Exit(_) => None,
    }
}

/// The child message that an output message came from.
pub open spec fn as_child(m: ChildOutMessage) -> ChildMessage {
    match m {
        ChildOutMessage::StdOut(t) => ChildMessage::StdOut(t),
        ChildOutMessage::StdErr(t) => ChildMessage::StdErr(t),
    }
}

/// All the output of a finished program and how it ended.
#[derive(Debug)]
pub struct CompletedProgram {
    pub messages: Vec<ChildOutMessage>,
    pub exit_status: ExitStatus,
}

/// Why a list of child messages does not describe a finished program.
#[derive(Debug, Clone, Copy, PartialEq, Eq, Structural)]
pub enum ProgramError {
    /// The list is empty or does not end with the program's end.
    MissingExit,
    /// The program's end appears before the last message.
    EarlyExit,
}

impl ProgramError {
    /// The message of this error.
    pub fn message(&self) -> (r: String)
        ensures
            r@ == (match *self {
                ProgramError::MissingExit => "Last ChildMessage must be an ExitStatus"@,
                ProgramError::EarlyExit => "Only the last ChildMessage in the vec can be Exit"@,
            }),
    {
        match self {
            ProgramError::MissingExit => String::from_str("Last ChildMessage must be an ExitStatus"),
            ProgramError::EarlyExit => String::from_str("Only the last ChildMessage in the vec can be Exit"),
        }
    }
}

/// Which error, if any, reading the messages `v` as a finished program
/// gives: the last message must be the end, and no other may be.
pub open spec fn program_error(v: Seq<ChildMessage>) -> Option<ProgramError> {
    if v.len() == 0 || !(v.last() is Exit) {
        Some(ProgramError::MissingExit)
    } else if exists|i: int| 0 <= i < v.len() - 1 && #[trigger] v[i] is Exit {
        Some(ProgramError::EarlyExit)
    } else {
        None
    }
}

impl CompletedProgram {
    /// Reads the messages of a child process, in the order they came, as a
    /// finished program: all but the last are its output, and the last is
    /// how it ended.
    pub fn try_from(value: Vec<ChildMessage>) -> (r: Result<CompletedProgram, ProgramError>)
        ensures
            match program_error(value@) {
                Some(e) => r == Err::<CompletedProgram, ProgramError>(e),
                None => r matches Ok(p) && p.messages@.len() == value@.len() - 1
                    && (forall|i: int| 0 <= i < p.messages@.len()
                        ==> Some(#[trigger] p.messages@[i]) == as_out(value@[i]))
                    && value@.last() == ChildMessage::Exit(p.exit_status),
            },
    {
        let n = value.len();
        if n == 0 {
            return Err(ProgramError::MissingExit);
        }
        let exit_status = match &value[n - 1] {
            ChildMessage::Exit(s) => *s,
            _ => {
                assert(value@.last() == value@[n - 1]);
                return Err(ProgramError::MissingExit);
            },
        };
        assert(value@.last() == ChildMessage::Exit(exit_status));
        let mut messages: Vec<ChildOutMessage> = Vec::new();
        let mut i: usize = 0;
        while i < n - 1
            invariant
                n == value@.len(),
                n >= 1,
                i <= n - 1,
                messages@.len() == i,
                value@.last() == ChildMessage::Exit(exit_status),
                forall|j: int| 0 <= j < i ==> Some(#[trigger] messages@[j]) == as_out(value@[j]),
                forall|j: int| 0 <= j < i ==> !(#[trigger] value@[j] is Exit),
            decreases n - 1 - i,
        {
            let m = match &value[i] {
                ChildMessage::StdOut(t) => ChildOutMessage::StdOut(t.clone()),
                ChildMessage::StdErr(t) => ChildOutMessage::StdErr(t.clone()),
                ChildMessage::Exit(_) => {
                    assert(value@[i as int] is Exit);
                    return Err(ProgramError::EarlyExit);
                },
            };
            messages.push(m);
            i = i + 1;
        }
        assert(!(exists|j: int| 0 <= j < value@.len() - 1 && #[trigger] value@[j] is Exit));
        Ok(CompletedProgram { messages, exit_status })
    }

    /// Whether the program ended successfully.
    pub fn was_successful(&self) -> (r: bool)
        ensures
            r == (self.exit_status.code == Some(0i32)),
    {
        self.exit_status.success()
    }
}

/// Writing a program's output followed by its end, and reading that list
/// back, gives the same output and end.
pub proof fn lemma_program_round_trip(out: Seq<ChildOutMessage>, status: ExitStatus)
    ensures
        ({
            let v = out.map_values(|m: ChildOutMessage| as_child(m)).push(ChildMessage::Exit(status));
            &&& program_error(v) is None
            &&& v.len() - 1 == out.len()
            &&& forall|i: int| 0 <= i < out.len() ==> as_out(#[trigger] v[i]) == Some(out[i])
            &&& v.last() == ChildMessage::Exit(status)
        }),
{
    let v = out.map_values(|m: ChildOutMessage| as_child(m)).push(ChildMessage::Exit(status));
    assert forall|i: int| 0 <= i < v.len() - 1 implies !(#[trigger] v[i] is Exit) by {
        assert(v[i] == as_child(out[i]));
    }
    assert forall|i: int| 0 <= i < out.len() implies as_out(#[trigger] v[i]) == Some(out[i]) by {
        assert(v[i] == as_child(out[i]));
    }
}

}

verus! {

/// Whether uv is installed and works.
#[derive(Debug, Clone, Copy, PartialEq, Eq, Structural)]
pub enum UVVerifyResult {
    Ready,
    NotFound,
    Error,
}

/// What came of starting a program and waiting for it.
#[derive(Debug)]
pub enum RunOutcome {
    /// It ran to its end.
    Finished(CompletedProgram),
    /// Its executable does not exist.
    NotFound,
    /// Something else went wrong while running it.
    Failed,
}

/// Whether a run finished and ended successfully.
pub open spec fn finished_ok(o: RunOutcome) -> bool {
    o matches RunOutcome::Finished(p) && p.exit_status.code == Some(0i32)
}

/// The verdict on uv from its version query and, when that query ran to
/// its end, its self-update: a missing executable means uv is not there;
/// any other failure, a failed self-update, or a failed version query is an
/// error; otherwise uv is fine. A self-update that could not be run at all
/// is not held against it.
pub open spec fn uv_verdict(version_run: RunOutcome, update_run: Option<RunOutcome>) -> UVVerifyResult {
    match version_run {
        RunOutcome::NotFound => UVVerifyResult::NotFound,
        RunOutcome::Failed => UVVerifyResult::Error,
        RunOutcome::Finished(p) => if update_run matches Some(RunOutcome::Finished(u))
            && u.exit_status.code != Some(0i32) {
            UVVerifyResult::Error
        } else if p.exit_status.code == Some(0i32) {
            UVVerifyResult::Ready
        } else {
            UVVerifyResult::Error
        },
    }
}

/// Decides whether uv is installed from the runs of `uv --version` and, if
/// that finished, `uv self update`.
pub fn uv_status_from_runs(version_run: &RunOutcome, update_run: &Option<RunOutcome>) -> (r: UVVerifyResult)
    ensures
        r == uv_verdict(*version_run, *update_run),
{
    match version_run {
        RunOutcome::NotFound => UVVerifyResult::NotFound,
        RunOutcome::Failed => UVVerifyResult::Error,
        RunOutcome::Finished(p) => {
            let update_failed = match update_run {
                Some(RunOutcome::Finished(u)) => !u.was_successful(),
                _ => false,
            };
            if update_failed {
                UVVerifyResult::Error
            } else if p.was_successful() {
                UVVerifyResult::Ready
            } else {
                UVVerifyResult::Error
            }
        },
    }
}

/// The command that installs uv: a PowerShell script on Windows, a shell
/// script elsewhere.
pub fn uv_install_command(is_windows: bool) -> (r: (String, Vec<String>))
    ensures
        is_windows ==> r.0@ == "powershell"@ && r.1@.len() == 4 && r.1@[0]@ == "-ExecutionPolicy"@
            && r.1@[1]@ == "ByPass"@ && r.1@[2]@ == "-Command"@
            && r.1@[3]@ == "$ProgressPreference = 'SilentlyContinue'; irm https://astral.sh/uv/install.ps1 | iex"@,
        !is_windows ==> r.0@ == "sh"@ && r.1@.len() == 2 && r.1@[0]@ == "-c"@
            && r.1@[1]@ == "curl -LsSf https://astral.sh/uv/install.sh | sh"@,
{
    if is_windows {
        let mut args: Vec<String> = Vec::new();
        args.push(String::from_str("-ExecutionPolicy"));
        args.push(String::from_str("ByPass"));
        args.push(String::from_str("-Command"));
        args.push(
            String::from_str(
                "$ProgressPreference = 'SilentlyContinue'; irm https://astral.sh/uv/install.ps1 | iex",
            ),
        );
        (String::from_str("powershell"), args)
    } else {
        let mut args: Vec<String> = Vec::new();
        args.push(String::from_str("-c"));
        args.push(String::from_str("curl -LsSf https://astral.sh/uv/install.sh | sh"));
        (String::from_str("sh"), args)
    }
}

/// Why running a program did not do what was asked.
#[derive(Debug, Clone, Copy, PartialEq, Eq, Structural)]
pub enum RunError {
    /// The program ended with a nonzero exit code.
    NonzeroExit,
    /// The program wrote no output where output was expected.
    NoOutput,
}

impl RunError {
    /// The message of this error.
    pub fn message(&self) -> (r: String)
        ensures
            r@ == (match *self {
                RunError::NonzeroExit => "Process returned nonzero exit code"@,
                RunError::NoOutput => "First child msg of uv version list must be json"@,
            }),
    {
        match self {
            RunError::NonzeroExit => String::from_str("Process returned nonzero exit code"),
            RunError::NoOutput => String::from_str("First child msg of uv version list must be json"),
        }
    }
}

/// The result of the uv installer run: success when it exited with code 0.
pub fn install_outcome(prog: &CompletedProgram) -> (r: Result<(), RunError>)
    ensures
        r is Ok <==> prog.exit_status.code == Some(0i32),
        r is Err ==> r == Err::<(), RunError>(RunError::NonzeroExit),
{
    if prog.was_successful() {
        Ok(())
    } else {
        Err(RunError::NonzeroExit)
    }
}

/// The first line a program wrote, which for `uv python list` is its JSON.
pub fn first_output_text(prog: &CompletedProgram) -> (r: Result<&str, RunError>)
    ensures
        prog.messages@.len() == 0 ==> r == Err::<&str, RunError>(RunError::NoOutput),
        prog.messages@.len() > 0 ==> (r matches Ok(t) && t@ == out_text(prog.messages@[0])),
{
    if prog.messages.len() == 0 {
        Err(RunError::NoOutput)
    } else {
        Ok(prog.messages[0].text())
    }
}

/// The arguments of `uv python list` that ask for JSON output.
pub fn python_list_args() -> (r: Vec<String>)
    ensures
        r@.len() == 4,
        r@[0]@ == "python"@,
        r@[1]@ == "list"@,
        r@[2]@ == "--output-format"@,
        r@[3]@ == "json"@,
{
    let mut args: Vec<String> = Vec::new();
    args.push(String::from_str("python"));
    args.push(String::from_str("list"));
    args.push(String::from_str("--output-format"));
    args.push(String::from_str("json"));
    args
}

/// The arguments of `uv python update-shell`.
pub fn update_shell_args() -> (r: Vec<String>)
    ensures
        r@.len() == 2,
        r@[0]@ == "python"@,
        r@[1]@ == "update-shell"@,
{
    let mut args: Vec<String> = Vec::new();
    args.push(String::from_str("python"));
    args.push(String::from_str("update-shell"));
    args
}

}

verus! {

/// What is known of uv after trying to install it: ready if the install
/// succeeded, an error otherwise.
pub fn status_after_install(installed: bool) -> (s: UVVerifyResult)
    ensures
        s == (if installed { UVVerifyResult::Ready } else { UVVerifyResult::Error }),
{
    if installed {
        UVVerifyResult::Ready
    } else {
        UVVerifyResult::Error
    }
}

/// uv counts as ready only when `uv --version` ran to its end with exit
/// code 0; a self-update that ran to its end with another code always
/// makes it an error; a missing executable means uv is not found; and a
/// successful version query without a failed self-update means ready.
pub proof fn lemma_uv_verdict_laws(version_run: RunOutcome, update_run: Option<RunOutcome>)
    ensures
        uv_verdict(version_run, update_run) == UVVerifyResult::Ready ==> (version_run matches RunOutcome::Finished(p)
            && p.exit_status.code == Some(0i32)),
        version_run is Finished ==> (update_run matches Some(RunOutcome::Finished(q)) && q.exit_status.code != Some(
            0i32,
        ) ==> uv_verdict(version_run, update_run) == UVVerifyResult::Error),
        version_run is NotFound ==> uv_verdict(version_run, update_run) == UVVerifyResult::NotFound,
        version_run is Failed ==> uv_verdict(version_run, update_run) == UVVerifyResult::Error,
        (version_run matches RunOutcome::Finished(p) && p.exit_status.code == Some(0i32)) ==> (!(update_run matches Some(
            RunOutcome::Finished(q),
        ) && q.exit_status.code != Some(0i32)) ==> uv_verdict(version_run, update_run) == UVVerifyResult::Ready),
{
}
}
