use vstd::prelude::*;

use vstd::utf8::{encode_utf8, encode_utf8_decode_utf8, encode_utf8_valid_utf8};

use crate::exec::local::{decoded, execute_result_ok, status_result};
use crate::exec::remote::{AuthMethod, RemoteAction, RemoteEvent, RemotePhase, next_action, status_part};
use crate::machine::{Machine, machine_host};

pub mod local;
pub mod remote;
pub mod ssh;

verus! {

/// Every way in which running a command can fail, shared by both backends.
#[derive(Debug, Clone, PartialEq, Eq)]
pub enum CmdError {
    /// The transport connection could not be opened.
    Connection(String),
    /// The credentials were rejected, or none were usable.
    Authentication(String),
    /// The secure-shell protocol negotiation failed.
    Handshake(String),
    /// The command could not be submitted.
    Execute(String),
    /// A local process or system I/O failure.
    Io(String),
    /// A secure-shell layer error not otherwise classified.
    Ssh(String),
    /// Captured bytes are not valid UTF-8 text.
    Utf8Error(String),
    /// The process or channel ended without a retrievable status.
    NoExitCode,
    /// Reserved fallback.
    Unknown,
}

pub type CmdResult<T> = Result<T, CmdError>;

/// Normalised completion status of a command.
#[derive(Debug, Clone, Copy, PartialEq, Eq, Structural)]
pub enum ExitCode {
    ExitSuccess,
    ExitFailure(i32),
}

/// The status that a raw return code denotes: zero is success, anything else a failure
/// carrying that code.
pub open spec fn exit_code_of(rc: i32) -> ExitCode {
    if rc == 0 {
        ExitCode::ExitSuccess
    } else {
        ExitCode::ExitFailure(rc)
    }
}

impl ExitCode {
    pub fn from_rc(rc: i32) -> (r: ExitCode)
        ensures
            r == exit_code_of(rc),
    {
        if rc == 0 {
            ExitCode::ExitSuccess
        } else {
            ExitCode::ExitFailure(rc)
        }
    }
}

/// One process to start: a program name and its literal argument vector.
#[derive(Debug, Clone, PartialEq, Eq)]
pub struct Invocation {
    pub program: String,
    pub args: Vec<String>,
}

/// The character sequences of a list of strings.
pub open spec fn texts(v: Seq<String>) -> Seq<Seq<char>> {
    v.map_values(|s: String| s@)
}

/// The invocation seen as a program text and its argument texts.
pub open spec fn invocation_is(i: Invocation, program: Seq<char>, args: Seq<Seq<char>>) -> bool {
    i.program@ == program && texts(i.args@) == args
}

fn text_of(s: &str) -> (r: String)
    ensures
        r@ == s@,
{
    String::from_str(s)
}

/// `mkdir -p <dir>`: creates a directory and its missing parents.
pub fn mkdirs_invocation(dir_name: &str) -> (r: Invocation)
    ensures
        invocation_is(r, "mkdir"@, seq!["-p"@, dir_name@]),
{
    let mut args: Vec<String> = Vec::new();
    args.push(text_of("-p"));
    args.push(text_of(dir_name));
    assert(texts(args@) =~= seq!["-p"@, dir_name@]);
    Invocation { program: text_of("mkdir"), args }
}

/// `test <option> <path>`: exits with zero iff the path passes the test.
pub fn file_test_invocation(option: &str, file_name: &str) -> (r: Invocation)
    ensures
        invocation_is(r, "test"@, seq![option@, file_name@]),
{
    let mut args: Vec<String> = Vec::new();
    args.push(text_of(option));
    args.push(text_of(file_name));
    assert(texts(args@) =~= seq![option@, file_name@]);
    Invocation { program: text_of("test"), args }
}

/// The test that a regular file at `file_name` exists.
pub fn file_exists_invocation(file_name: &str) -> (r: Invocation)
    ensures
        invocation_is(r, "test"@, seq!["-f"@, file_name@]),
{
    file_test_invocation("-f", file_name)
}

/// The test that a directory at `file_name` exists.
pub fn directory_exists_invocation(file_name: &str) -> (r: Invocation)
    ensures
        invocation_is(r, "test"@, seq!["-d"@, file_name@]),
{
    file_test_invocation("-d", file_name)
}

/// What a file test reports, given what running `test` gave.
pub open spec fn file_test_result(rc: CmdResult<ExitCode>) -> CmdResult<bool> {
    match rc {
        Ok(ExitCode::ExitSuccess) => Ok(true),
        Ok(ExitCode::ExitFailure(_)) => Ok(false),
        Err(e) => Err(e),
    }
}

/// A zero status means the path passed the test; any other status means it did not, which is
/// no error. Only a failure to run the test at all is passed on.
pub fn file_test_outcome(rc: CmdResult<ExitCode>) -> (r: CmdResult<bool>)
    ensures
        r == file_test_result(rc),
{
    match rc {
        Ok(ExitCode::ExitSuccess) => Ok(true),
        Ok(ExitCode::ExitFailure(_)) => Ok(false),
        Err(e) => Err(e),
    }
}

/// Which of the two machines of a copy runs the copy utility.
#[derive(Debug, Clone, Copy, PartialEq, Eq, Structural)]
pub enum CopySide {
    Source,
    Destination,
}

/// What a copy between two machines amounts to.
#[derive(Debug, Clone, PartialEq, Eq)]
pub enum CopyPlan {
    /// Both ends are the same host: nothing is run and the copy counts as a success.
    SameMachine,
    /// One invocation, run on the machine named by `executor`.
    Transfer { executor: CopySide, invocation: Invocation },
}

/// The side that runs the copy: the destination if it is local, else the source.
pub open spec fn copy_executor(dst_m: Machine) -> CopySide {
    match dst_m {
        Machine::LocalMachine => CopySide::Destination,
        Machine::RemoteMachine(_) => CopySide::Source,
    }
}

/// A path as the executing machine must name it: as it is where it lies on the executor itself
/// or on the local host, else as `user@host:path`.
pub open spec fn copy_arg(m: Machine, file: Seq<char>, is_executor: bool) -> Seq<char> {
    match m {
        Machine::LocalMachine => file,
        Machine::RemoteMachine(c) => if is_executor {
            file
        } else {
            c.username@ + "@"@ + c.hostname@ + ":"@ + file
        },
    }
}

/// The plan of a copy of `src_file` on `src_m` to `dst_file` on `dst_m`.
pub open spec fn copy_plan_of(
    src_m: Machine,
    src_file: Seq<char>,
    dst_m: Machine,
    dst_file: Seq<char>,
    plan: CopyPlan,
) -> bool {
    if machine_host(src_m) == machine_host(dst_m) {
        plan == CopyPlan::SameMachine
    } else {
        let ex = copy_executor(dst_m);
        match plan {
            CopyPlan::SameMachine => false,
            CopyPlan::Transfer { executor, invocation } => executor == ex && invocation_is(
                invocation,
                "scp"@,
                seq![
                    copy_arg(src_m, src_file, ex == CopySide::Source),
                    copy_arg(dst_m, dst_file, ex == CopySide::Destination),
                ],
            ),
        }
    }
}

fn build_scp_arg(machine: &Machine, file: &str, is_executor: bool) -> (r: String)
    ensures
        r@ == copy_arg(*machine, file@, is_executor),
{
    match machine {
        Machine::LocalMachine => text_of(file),
        Machine::RemoteMachine(creds) => {
            if is_executor {
                text_of(file)
            } else {
                let mut s = creds.username.clone();
                s.append("@");
                s.append(creds.hostname.as_str());
                s.append(":");
                s.append(file);
                s
            }
        },
    }
}

/// Plans a copy between two machines. Identical hosts give no invocation at all; distinct hosts
/// give exactly one `scp` invocation, run on the destination when it is local and on the
/// source otherwise.
pub fn plan_copy(src_m: &Machine, src_file: &str, dst_m: &Machine, dst_file: &str) -> (r: CopyPlan)
    ensures
        copy_plan_of(*src_m, src_file@, *dst_m, dst_file@, r),
{
    let src_host = text_of(src_m.hostname());
    let dst_host = text_of(dst_m.hostname());
    if src_host == dst_host {
        return CopyPlan::SameMachine;
    }
    let executor = match dst_m {
        Machine::LocalMachine => CopySide::Destination,
        Machine::RemoteMachine(_) => CopySide::Source,
    };
    let on_source = match executor {
        CopySide::Source => true,
        CopySide::Destination => false,
    };
    let source = build_scp_arg(src_m, src_file, on_source);
    let destination = build_scp_arg(dst_m, dst_file, !on_source);
    let mut args: Vec<String> = Vec::new();
    args.push(source);
    args.push(destination);
    let ghost ex = copy_executor(*dst_m);
    assert(texts(args@) =~= seq![
        copy_arg(*src_m, src_file@, ex == CopySide::Source),
        copy_arg(*dst_m, dst_file@, ex == CopySide::Destination),
    ]);
    CopyPlan::Transfer { executor, invocation: Invocation { program: text_of("scp"), args } }
}

/// A copy whose two ends are the same machine runs nothing: the plan is to skip it, and a
/// skipped copy reports success.
pub proof fn lemma_same_machine_copy_is_skipped(
    m: Machine,
    src_file: Seq<char>,
    dst_file: Seq<char>,
    plan: CopyPlan,
)
    requires
        copy_plan_of(m, src_file, m, dst_file, plan),
    ensures
        plan == CopyPlan::SameMachine,
{
}

/// A copy between machines on distinct hosts is one `scp` invocation with two path arguments,
/// run on the destination exactly when the destination is local.
pub proof fn lemma_distinct_machines_copy_once(
    src_m: Machine,
    src_file: Seq<char>,
    dst_m: Machine,
    dst_file: Seq<char>,
    plan: CopyPlan,
)
    requires
        machine_host(src_m) != machine_host(dst_m),
        copy_plan_of(src_m, src_file, dst_m, dst_file, plan),
    ensures
        plan matches CopyPlan::Transfer { executor, invocation } && invocation.program@ == "scp"@
            && invocation.args@.len() == 2 && (executor == CopySide::Destination <==> dst_m
            is LocalMachine) && invocation.args@[0]@ == copy_arg(
            src_m,
            src_file,
            executor == CopySide::Source,
        ) && invocation.args@[1]@ == copy_arg(dst_m, dst_file, executor == CopySide::Destination),
{
    if let CopyPlan::Transfer { executor, invocation } = plan {
        assert(texts(invocation.args@).len() == 2);
        assert(invocation.args@[0]@ == texts(invocation.args@)[0]);
        assert(invocation.args@[1]@ == texts(invocation.args@)[1]);
    }
}

/// A command that exits with zero reports success on both backends, whether its output is
/// captured or not (locally, once its two streams are text).
pub proof fn lemma_zero_status_is_success(
    stdout: Seq<u8>,
    stderr: Seq<u8>,
    local: CmdResult<(ExitCode, String)>,
    auth: Option<AuthMethod>,
    command: Seq<char>,
    output: String,
    remote: RemoteAction,
)
    requires
        decoded(stdout) is Some,
        decoded(stderr) is Some,
        execute_result_ok(stdout, stderr, Some(0i32), local),
        next_action(
            RemotePhase::Executing,
            auth,
            command,
            RemoteEvent::Completed { output, status: 0 },
            remote,
        ),
    ensures
        status_result(Some(0i32)) == Ok::<ExitCode, CmdError>(ExitCode::ExitSuccess),
        local matches Ok((ExitCode::ExitSuccess, _)),
        remote matches RemoteAction::Finish(r) && r matches Ok((ExitCode::ExitSuccess, _))
            && status_part(r) == Ok::<ExitCode, CmdError>(ExitCode::ExitSuccess),
{
}

/// A command that exits with a nonzero code reports a failure with that very code on both
/// backends, whether its output is captured or not (locally, once its two streams are text).
pub proof fn lemma_nonzero_status_is_failure(
    rc: i32,
    stdout: Seq<u8>,
    stderr: Seq<u8>,
    local: CmdResult<(ExitCode, String)>,
    auth: Option<AuthMethod>,
    command: Seq<char>,
    output: String,
    remote: RemoteAction,
)
    requires
        rc != 0,
        decoded(stdout) is Some,
        decoded(stderr) is Some,
        execute_result_ok(stdout, stderr, Some(rc), local),
        next_action(
            RemotePhase::Executing,
            auth,
            command,
            RemoteEvent::Completed { output, status: rc },
            remote,
        ),
    ensures
        status_result(Some(rc)) == Ok::<ExitCode, CmdError>(ExitCode::ExitFailure(rc)),
        local matches Ok((ExitCode::ExitFailure(c), _)) && c == rc,
        remote matches RemoteAction::Finish(r) && r matches Ok((ExitCode::ExitFailure(c), _)) && c
            == rc && status_part(r) == Ok::<ExitCode, CmdError>(ExitCode::ExitFailure(rc)),
{
}

/// Locally, the captured output of a command that prints a text is that text, character for
/// character.
pub proof fn lemma_captured_output_round_trips(
    text: Seq<char>,
    stderr: Seq<u8>,
    local: CmdResult<(ExitCode, String)>,
)
    requires
        decoded(stderr) is Some,
        execute_result_ok(encode_utf8(text), stderr, Some(0i32), local),
    ensures
        local matches Ok((ExitCode::ExitSuccess, out)) && out@ == text,
{
    encode_utf8_valid_utf8(text);
    encode_utf8_decode_utf8(text);
}

/// Where a local and a remote run of a command end with the same status and the same output
/// text, both report the same status and output.
pub proof fn lemma_backends_agree(
    rc: i32,
    stdout: Seq<u8>,
    stderr: Seq<u8>,
    local: CmdResult<(ExitCode, String)>,
    auth: Option<AuthMethod>,
    command: Seq<char>,
    output: String,
    remote: RemoteAction,
)
    requires
        decoded(stdout) == Some(output@),
        decoded(stderr) is Some,
        execute_result_ok(stdout, stderr, Some(rc), local),
        next_action(
            RemotePhase::Executing,
            auth,
            command,
            RemoteEvent::Completed { output, status: rc },
            remote,
        ),
    ensures
        local matches Ok((lec, lout)) && remote matches RemoteAction::Finish(r) && r matches Ok(
            (rec, rout),
        ) && lec == rec && lout@ == rout@ && lec == exit_code_of(rc),
{
}

} // verus!
