use vstd::prelude::*;

use crate::exec::ssh::SshCredentials;
use crate::exec::{CmdError, CmdResult, ExitCode, exit_code_of};

verus! {

/// The texts of a list of string slices.
pub open spec fn str_texts(args: Seq<&str>) -> Seq<Seq<char>> {
    args.map_values(|a: &str| a@)
}

/// The command name followed by each argument, each after a single space. Nothing is quoted:
/// an argument holding spaces or shell metacharacters reaches the remote shell as it is.
pub open spec fn command_line(cmd: Seq<char>, args: Seq<Seq<char>>) -> Seq<char>
    decreases args.len(),
{
    if args.len() == 0 {
        cmd
    } else {
        command_line(cmd, args.drop_last()) + " "@ + args.last()
    }
}

/// Joins a command and its arguments into the single line that a remote shell runs.
pub fn to_command_str(cmd: &str, args: &[&str]) -> (r: String)
    ensures
        r@ == command_line(cmd@, str_texts(args@)),
{
    let mut s = String::from_str(cmd);
    let mut i: usize = 0;
    while i < args.len()
        invariant
            0 <= i <= args@.len(),
            s@ == command_line(cmd@, str_texts(args@).take(i as int)),
        decreases args@.len() - i,
    {
        s.append(" ");
        s.append(args[i]);
        proof {
            assert(str_texts(args@).take(i + 1).drop_last() =~= str_texts(args@).take(i as int));
        }
        i += 1;
    }
    proof {
        assert(str_texts(args@).take(args@.len() as int) =~= str_texts(args@));
    }
    s
}

/// The single authentication strategy that a session attempts.
#[derive(Debug, Clone, PartialEq, Eq)]
pub enum AuthMethod {
    /// Public-key authentication with a private key file and, optionally, its public half.
    PublicKey { username: String, private_key_file: String, public_key_file: Option<String> },
    /// Password authentication.
    Password { username: String, password: String },
}

/// The strategy chosen for a set of credentials: a private key takes precedence over a
/// password; with neither there is none.
pub open spec fn auth_method_of(c: SshCredentials) -> Option<AuthMethod> {
    match c.private_key_file {
        Some(k) => Some(
            AuthMethod::PublicKey {
                username: c.username,
                private_key_file: k,
                public_key_file: c.public_key_file,
            },
        ),
        None => match c.password {
            Some(p) => Some(AuthMethod::Password { username: c.username, password: p }),
            None => None,
        },
    }
}

fn clone_opt(s: &Option<String>) -> (r: Option<String>)
    ensures
        r == *s,
{
    match s {
        Some(t) => Some(t.clone()),
        None => None,
    }
}

fn copy_auth(a: &AuthMethod) -> (r: AuthMethod)
    ensures
        r == *a,
{
    match a {
        AuthMethod::PublicKey { username, private_key_file, public_key_file } => {
            AuthMethod::PublicKey {
                username: username.clone(),
                private_key_file: private_key_file.clone(),
                public_key_file: clone_opt(public_key_file),
            }
        },
        AuthMethod::Password { username, password } => AuthMethod::Password {
            username: username.clone(),
            password: password.clone(),
        },
    }
}

/// Picks the authentication strategy for `creds`.
pub fn auth_method(creds: &SshCredentials) -> (r: Option<AuthMethod>)
    ensures
        r == auth_method_of(*creds),
{
    match &creds.private_key_file {
        Some(k) => Some(
            AuthMethod::PublicKey {
                username: creds.username.clone(),
                private_key_file: k.clone(),
                public_key_file: clone_opt(&creds.public_key_file),
            },
        ),
        None => match &creds.password {
            Some(p) => Some(
                AuthMethod::Password { username: creds.username.clone(), password: p.clone() },
            ),
            None => None,
        },
    }
}

/// Where a remote call stands.
#[derive(Debug, Clone, Copy, PartialEq, Eq, Structural)]
pub enum RemotePhase {
    Connecting,
    Handshaking,
    Authenticating,
    Verifying,
    Executing,
    Done,
}

/// What happened when the last action was carried out.
#[derive(Debug, Clone, PartialEq, Eq)]
pub enum RemoteEvent {
    /// The connect, handshake or authentication step completed.
    StepDone,
    /// The step of the current phase failed, with the layer's message.
    StepFailed(String),
    /// Whether the session reports itself authenticated.
    AuthenticationChecked(bool),
    /// The command ran and its channel closed: all its output and its exit status.
    Completed { output: String, status: i32 },
    /// Any other secure-shell error, such as a failed exit-status query.
    ProtocolFailed(String),
    /// Reading the command's output failed.
    IoFailed(String),
}

/// What the caller must do next.
#[derive(Debug, PartialEq, Eq)]
pub enum RemoteAction {
    /// Open a network connection to the host and port.
    Connect { hostname: String, port: u16 },
    /// Negotiate the secure-shell session over the connection.
    Handshake,
    /// Authenticate with this strategy, and no other.
    Authenticate(AuthMethod),
    /// Ask the session whether it is authenticated.
    CheckAuthenticated,
    /// Open a channel, run the command line, read all output and fetch the exit status.
    Exec { command: String },
    /// The call is over, with this result.
    Finish(CmdResult<(ExitCode, String)>),
}

/// One remote call, from connecting to the command's exit status. Nothing outlives the call.
#[derive(Debug, Clone, PartialEq, Eq)]
pub struct RemoteSession {
    pub phase: RemotePhase,
    pub auth: Option<AuthMethod>,
    pub command: String,
}

/// The phase that follows `phase` on `event`; `has_auth` tells whether a strategy exists.
pub open spec fn next_phase(phase: RemotePhase, has_auth: bool, event: RemoteEvent) -> RemotePhase {
    if phase is Done {
        RemotePhase::Done
    } else {
        match event {
            RemoteEvent::StepDone => match phase {
                RemotePhase::Connecting => RemotePhase::Handshaking,
                RemotePhase::Handshaking => if has_auth {
                    RemotePhase::Authenticating
                } else {
                    RemotePhase::Done
                },
                RemotePhase::Authenticating => RemotePhase::Verifying,
                _ => RemotePhase::Done,
            },
            RemoteEvent::AuthenticationChecked(ok) => if phase is Verifying && ok {
                RemotePhase::Executing
            } else {
                RemotePhase::Done
            },
            _ => RemotePhase::Done,
        }
    }
}

/// The call's end with an error.
pub open spec fn fails_with(action: RemoteAction, e: CmdError) -> bool {
    action == RemoteAction::Finish(Err(e))
}

/// The error that the failure of the current phase's own step denotes.
pub open spec fn step_error(phase: RemotePhase, m: String) -> CmdError {
    match phase {
        RemotePhase::Connecting => CmdError::Connection(m),
        RemotePhase::Handshaking => CmdError::Handshake(m),
        RemotePhase::Authenticating => CmdError::Authentication(m),
        RemotePhase::Executing => CmdError::Execute(m),
        _ => CmdError::Unknown,
    }
}

/// The action that answers `event` in `phase`. An event that the phase does not expect ends the
/// call with `Unknown`.
pub open spec fn next_action(
    phase: RemotePhase,
    auth: Option<AuthMethod>,
    command: Seq<char>,
    event: RemoteEvent,
    action: RemoteAction,
) -> bool {
    if phase is Done {
        fails_with(action, CmdError::Unknown)
    } else {
        match event {
            RemoteEvent::ProtocolFailed(m) => fails_with(action, CmdError::Ssh(m)),
            RemoteEvent::IoFailed(m) => fails_with(action, CmdError::Io(m)),
            RemoteEvent::StepFailed(m) => fails_with(action, step_error(phase, m)),
            RemoteEvent::StepDone => match phase {
                RemotePhase::Connecting => action == RemoteAction::Handshake,
                RemotePhase::Handshaking => match auth {
                    Some(a) => action == RemoteAction::Authenticate(a),
                    None => action matches RemoteAction::Finish(Err(CmdError::Authentication(m)))
                        && m@ == "no authentication method"@,
                },
                RemotePhase::Authenticating => action == RemoteAction::CheckAuthenticated,
                _ => fails_with(action, CmdError::Unknown),
            },
            RemoteEvent::AuthenticationChecked(ok) => if !(phase is Verifying) {
                fails_with(action, CmdError::Unknown)
            } else if ok {
                action matches RemoteAction::Exec { command: c } && c@ == command
            } else {
                action matches RemoteAction::Finish(Err(CmdError::Authentication(m))) && m@
                    == "not authenticated"@
            },
            RemoteEvent::Completed { output, status } => if phase is Executing {
                action == RemoteAction::Finish(Ok((exit_code_of(status), output)))
            } else {
                fails_with(action, CmdError::Unknown)
            },
        }
    }
}

fn finish_err(e: CmdError) -> (r: RemoteAction)
    ensures
        fails_with(r, e),
{
    RemoteAction::Finish(Err(e))
}

impl RemoteSession {
    /// Starts a call of `cmd` with `args` on the machine that `creds` describe: the first
    /// action connects to its host, on port 22 unless another is set.
    pub fn new(creds: &SshCredentials, cmd: &str, args: &[&str]) -> (r: (RemoteSession, RemoteAction))
        ensures
            r.0.phase == RemotePhase::Connecting,
            r.0.auth == auth_method_of(*creds),
            r.0.command@ == command_line(cmd@, str_texts(args@)),
            r.1 == (RemoteAction::Connect {
                hostname: creds.hostname,
                port: match creds.port {
                    Some(p) => p,
                    None => 22u16,
                },
            }),
    {
        let port: u16 = match creds.port {
            Some(p) => p,
            None => 22,
        };
        let session = RemoteSession {
            phase: RemotePhase::Connecting,
            auth: auth_method(creds),
            command: to_command_str(cmd, args),
        };
        (session, RemoteAction::Connect { hostname: creds.hostname.clone(), port })
    }

    /// Takes the outcome of the last action and says what to do next.
    pub fn step(&mut self, event: RemoteEvent) -> (r: RemoteAction)
        ensures
            final(self).phase == next_phase(old(self).phase, old(self).auth is Some, event),
            final(self).auth == old(self).auth,
            final(self).command == old(self).command,
            next_action(old(self).phase, old(self).auth, old(self).command@, event, r),
    {
        let phase = self.phase;
        self.phase = RemotePhase::Done;
        if phase == RemotePhase::Done {
            return finish_err(CmdError::Unknown);
        }
        match event {
            RemoteEvent::ProtocolFailed(m) => finish_err(CmdError::Ssh(m)),
            RemoteEvent::IoFailed(m) => finish_err(CmdError::Io(m)),
            RemoteEvent::StepFailed(m) => {
                let e = match phase {
                    RemotePhase::Connecting => CmdError::Connection(m),
                    RemotePhase::Handshaking => CmdError::Handshake(m),
                    RemotePhase::Authenticating => CmdError::Authentication(m),
                    RemotePhase::Executing => CmdError::Execute(m),
                    _ => CmdError::Unknown,
                };
                finish_err(e)
            },
            RemoteEvent::StepDone => match phase {
                RemotePhase::Connecting => {
                    self.phase = RemotePhase::Handshaking;
                    RemoteAction::Handshake
                },
                RemotePhase::Handshaking => match &self.auth {
                    Some(a) => {
                        self.phase = RemotePhase::Authenticating;
                        RemoteAction::Authenticate(copy_auth(a))
                    },
                    None => finish_err(
                        CmdError::Authentication(String::from_str("no authentication method")),
                    ),
                },
                RemotePhase::Authenticating => {
                    self.phase = RemotePhase::Verifying;
                    RemoteAction::CheckAuthenticated
                },
                _ => finish_err(CmdError::Unknown),
            },
            RemoteEvent::AuthenticationChecked(ok) => {
                if phase != RemotePhase::Verifying {
                    finish_err(CmdError::Unknown)
                } else if ok {
                    self.phase = RemotePhase::Executing;
                    RemoteAction::Exec { command: self.command.clone() }
                } else {
                    finish_err(CmdError::Authentication(String::from_str("not authenticated")))
                }
            },
            RemoteEvent::Completed { output, status } => {
                if phase == RemotePhase::Executing {
                    RemoteAction::Finish(Ok((ExitCode::from_rc(status), output)))
                } else {
                    finish_err(CmdError::Unknown)
                }
            },
        }
    }
}

/// The status part of a finished call, for callers that run a command for its status alone.
pub open spec fn status_part(r: CmdResult<(ExitCode, String)>) -> CmdResult<ExitCode> {
    match r {
        Ok((ec, _)) => Ok(ec),
        Err(e) => Err(e),
    }
}

/// Drops the captured output of a finished call and keeps its status.
pub fn status_only(r: CmdResult<(ExitCode, String)>) -> (s: CmdResult<ExitCode>)
    ensures
        s == status_part(r),
{
    match r {
        Ok((ec, _)) => Ok(ec),
        Err(e) => Err(e),
    }
}

/// The phase reached from `phase` after `events`, one after the other.
pub open spec fn phase_after(phase: RemotePhase, has_auth: bool, events: Seq<RemoteEvent>) -> RemotePhase
    decreases events.len(),
{
    if events.len() == 0 {
        phase
    } else {
        phase_after(next_phase(phase, has_auth, events[0]), has_auth, events.drop_first())
    }
}

proof fn lemma_no_auth_phases(phase: RemotePhase, events: Seq<RemoteEvent>)
    requires
        phase is Connecting || phase is Handshaking || phase is Done,
    ensures
        ({
            let p = phase_after(phase, false, events);
            p is Connecting || p is Handshaking || p is Done
        }),
    decreases events.len(),
{
    if events.len() > 0 {
        lemma_no_auth_phases(next_phase(phase, false, events[0]), events.drop_first());
    }
}

/// Credentials with neither a private key nor a password end the call with an authentication
/// error right after the handshake, and whatever events follow, the call never reaches the
/// phase in which a command is run, so no command is ever sent.
pub proof fn lemma_no_credentials_never_exec(
    creds: SshCredentials,
    command: Seq<char>,
    events: Seq<RemoteEvent>,
    action: RemoteAction,
)
    requires
        creds.private_key_file is None,
        creds.password is None,
    ensures
        auth_method_of(creds) is None,
        next_phase(RemotePhase::Handshaking, false, RemoteEvent::StepDone) == RemotePhase::Done,
        next_action(RemotePhase::Handshaking, auth_method_of(creds), command, RemoteEvent::StepDone, action)
            ==> action matches RemoteAction::Finish(Err(CmdError::Authentication(_))),
        forall|i: int, a: RemoteAction|
            0 <= i < events.len() && #[trigger] next_action(
                phase_after(RemotePhase::Connecting, false, events.take(i)),
                None,
                command,
                events[i],
                a,
            ) ==> !(a is Exec),
{
    assert forall|i: int, a: RemoteAction|
        0 <= i < events.len() && #[trigger] next_action(
            phase_after(RemotePhase::Connecting, false, events.take(i)),
            None,
            command,
            events[i],
            a,
        ) implies !(a is Exec) by {
        lemma_no_auth_phases(RemotePhase::Connecting, events.take(i));
    }
}

/// A command line is sent only on entering the executing phase: every `Exec` action answers a
/// confirmed authentication in the verifying phase.
pub proof fn lemma_exec_only_after_verified(
    phase: RemotePhase,
    auth: Option<AuthMethod>,
    command: Seq<char>,
    event: RemoteEvent,
    action: RemoteAction,
)
    requires
        next_action(phase, auth, command, event, action),
        action is Exec,
    ensures
        phase is Verifying,
        event == RemoteEvent::AuthenticationChecked(true),
        next_phase(phase, auth is Some, event) is Executing,
{
}

} // verus!
