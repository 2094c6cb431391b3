use rexec::exec::local::{decode_text, execute_outcome, run_outcome, stderr_diagnostic};
use rexec::exec::remote::{
    auth_method, status_only, to_command_str, AuthMethod, RemoteAction, RemoteEvent, RemotePhase,
    RemoteSession,
};
use rexec::exec::ssh::{SshCredentials, SshCredentialsBuilder};
use rexec::exec::{
    directory_exists_invocation, file_exists_invocation, file_test_outcome, mkdirs_invocation,
    plan_copy, CmdError, CopyPlan, CopySide, ExitCode, Invocation,
};
use rexec::machine::Machine;

fn creds(user: &str, host: &str) -> SshCredentialsBuilder {
    SshCredentials::builder(user.to_string(), host.to_string())
}

fn remote(user: &str, host: &str) -> Machine {
    Machine::RemoteMachine(creds(user, host).password("pw".to_string()).build())
}

fn inv(program: &str, args: &[&str]) -> Invocation {
    Invocation {
        program: program.to_string(),
        args: args.iter().map(|a| a.to_string()).collect(),
    }
}

#[test]
fn from_rc_zero_is_success() {
    assert_eq!(ExitCode::from_rc(0), ExitCode::ExitSuccess);
}

#[test]
fn from_rc_nonzero_is_failure() {
    assert_eq!(ExitCode::from_rc(1), ExitCode::ExitFailure(1));
    assert_eq!(ExitCode::from_rc(255), ExitCode::ExitFailure(255));
    assert_eq!(ExitCode::from_rc(-1), ExitCode::ExitFailure(-1));
}

#[test]
fn mkdirs_runs_mkdir_p() {
    assert_eq!(mkdirs_invocation("/tmp/a/b"), inv("mkdir", &["-p", "/tmp/a/b"]));
}

#[test]
fn existence_checks_use_test() {
    assert_eq!(file_exists_invocation("/etc/hosts"), inv("test", &["-f", "/etc/hosts"]));
    assert_eq!(directory_exists_invocation("/etc"), inv("test", &["-d", "/etc"]));
}

#[test]
fn file_test_outcome_maps_status() {
    assert_eq!(file_test_outcome(Ok(ExitCode::ExitSuccess)), Ok(true));
    assert_eq!(file_test_outcome(Ok(ExitCode::ExitFailure(1))), Ok(false));
    assert_eq!(file_test_outcome(Ok(ExitCode::ExitFailure(2))), Ok(false));
    assert_eq!(
        file_test_outcome(Err(CmdError::Connection("refused".to_string()))),
        Err(CmdError::Connection("refused".to_string()))
    );
}

#[test]
fn copy_on_same_machine_is_skipped() {
    let m = Machine::LocalMachine;
    assert_eq!(plan_copy(&m, "/a", &m, "/b"), CopyPlan::SameMachine);
    let r = remote("bob", "10.0.0.1");
    assert_eq!(plan_copy(&r, "/a", &r, "/b"), CopyPlan::SameMachine);
}

#[test]
fn copy_remote_to_local_runs_on_destination() {
    let src = remote("bob", "10.0.0.1");
    let dst = Machine::LocalMachine;
    assert_eq!(
        plan_copy(&src, "/data/x", &dst, "/tmp/x"),
        CopyPlan::Transfer {
            executor: CopySide::Destination,
            invocation: inv("scp", &["bob@10.0.0.1:/data/x", "/tmp/x"]),
        }
    );
}

#[test]
fn copy_local_to_remote_runs_on_source() {
    let src = Machine::LocalMachine;
    let dst = remote("amy", "host.example");
    assert_eq!(
        plan_copy(&src, "/tmp/x", &dst, "/srv/x"),
        CopyPlan::Transfer {
            executor: CopySide::Source,
            invocation: inv("scp", &["/tmp/x", "amy@host.example:/srv/x"]),
        }
    );
}

#[test]
fn copy_remote_to_remote_runs_on_source() {
    let src = remote("bob", "a.example");
    let dst = remote("amy", "b.example");
    assert_eq!(
        plan_copy(&src, "/x", &dst, "/y"),
        CopyPlan::Transfer {
            executor: CopySide::Source,
            invocation: inv("scp", &["/x", "amy@b.example:/y"]),
        }
    );
}

#[test]
fn decode_text_accepts_utf8() {
    assert_eq!(decode_text("héllo".as_bytes()), Ok("héllo".to_string()));
    assert_eq!(decode_text(&[]), Ok(String::new()));
}

#[test]
fn decode_text_rejects_invalid_bytes() {
    assert!(matches!(decode_text(&[0xff, 0xfe]), Err(CmdError::Utf8Error(_))));
}

#[test]
fn run_outcome_maps_codes() {
    assert_eq!(run_outcome(Some(0)), Ok(ExitCode::ExitSuccess));
    assert_eq!(run_outcome(Some(3)), Ok(ExitCode::ExitFailure(3)));
    assert_eq!(run_outcome(None), Err(CmdError::NoExitCode));
}

#[test]
fn execute_outcome_returns_captured_output() {
    assert_eq!(
        execute_outcome(b"hello\n", b"", Some(0)),
        Ok((ExitCode::ExitSuccess, "hello\n".to_string()))
    );
    assert_eq!(
        execute_outcome(b"partial", b"oops", Some(4)),
        Ok((ExitCode::ExitFailure(4), "partial".to_string()))
    );
}

#[test]
fn execute_outcome_errors() {
    assert_eq!(execute_outcome(b"x", b"", None), Err(CmdError::NoExitCode));
    assert!(matches!(execute_outcome(&[0xc3], b"", Some(0)), Err(CmdError::Utf8Error(_))));
    assert!(matches!(execute_outcome(b"ok", &[0x80], Some(0)), Err(CmdError::Utf8Error(_))));
}

#[test]
fn stderr_diagnostic_only_when_nonempty() {
    assert_eq!(stderr_diagnostic(""), None);
    assert_eq!(stderr_diagnostic("boom"), Some("Error:\nboom".to_string()));
}

#[test]
fn command_str_joins_with_spaces() {
    assert_eq!(to_command_str("ls", &[]), "ls");
    assert_eq!(to_command_str("ls", &["-l", "/tmp"]), "ls -l /tmp");
    assert_eq!(to_command_str("echo", &["a b"]), "echo a b");
}

#[test]
fn builder_sets_fields() {
    let c = creds("bob", "h")
        .password("pw".to_string())
        .port(2222)
        .private_key_file("/k".to_string())
        .public_key_file("/k.pub".to_string())
        .build();
    assert_eq!(c.username, "bob");
    assert_eq!(c.hostname, "h");
    assert_eq!(c.password, Some("pw".to_string()));
    assert_eq!(c.port, Some(2222));
    assert_eq!(c.private_key_file, Some("/k".to_string()));
    assert_eq!(c.public_key_file, Some("/k.pub".to_string()));
    let bare = creds("u", "h").build();
    assert_eq!(bare.password, None);
    assert_eq!(bare.port, None);
}

#[test]
fn auth_method_precedence() {
    let both = creds("u", "h").password("pw".to_string()).private_key_file("/k".to_string()).build();
    assert_eq!(
        auth_method(&both),
        Some(AuthMethod::PublicKey {
            username: "u".to_string(),
            private_key_file: "/k".to_string(),
            public_key_file: None,
        })
    );
    let pw = creds("u", "h").password("pw".to_string()).build();
    assert_eq!(
        auth_method(&pw),
        Some(AuthMethod::Password { username: "u".to_string(), password: "pw".to_string() })
    );
    assert_eq!(auth_method(&creds("u", "h").build()), None);
}

#[test]
fn machine_display_and_host() {
    assert_eq!(Machine::LocalMachine.to_string(), "localhost");
    assert_eq!(Machine::LocalMachine.hostname(), "localhost");
    assert!(Machine::LocalMachine.is_local());
    let r = Machine::RemoteMachine(creds("u", "example.org").build());
    assert_eq!(r.to_string(), "example.org");
    assert_eq!(r.hostname(), "example.org");
    assert!(!r.is_local());
    let p = Machine::RemoteMachine(creds("u", "example.org").port(2222).build());
    assert_eq!(p.to_string(), "example.org:2222");
    let z = Machine::RemoteMachine(creds("u", "h").port(0).build());
    assert_eq!(z.to_string(), "h:0");
}

#[test]
fn remote_session_success_flow() {
    let c = creds("u", "h").password("pw".to_string()).build();
    let (mut s, a) = RemoteSession::new(&c, "echo", &["hello"]);
    assert_eq!(a, RemoteAction::Connect { hostname: "h".to_string(), port: 22 });
    assert_eq!(s.step(RemoteEvent::StepDone), RemoteAction::Handshake);
    assert_eq!(
        s.step(RemoteEvent::StepDone),
        RemoteAction::Authenticate(AuthMethod::Password {
            username: "u".to_string(),
            password: "pw".to_string(),
        })
    );
    assert_eq!(s.step(RemoteEvent::StepDone), RemoteAction::CheckAuthenticated);
    assert_eq!(
        s.step(RemoteEvent::AuthenticationChecked(true)),
        RemoteAction::Exec { command: "echo hello".to_string() }
    );
    let done = s.step(RemoteEvent::Completed { output: "hello\n".to_string(), status: 0 });
    assert_eq!(done, RemoteAction::Finish(Ok((ExitCode::ExitSuccess, "hello\n".to_string()))));
    assert_eq!(s.phase, RemotePhase::Done);
}

#[test]
fn remote_session_uses_configured_port() {
    let c = creds("u", "h").password("pw".to_string()).port(2200).build();
    let (_, a) = RemoteSession::new(&c, "true", &[]);
    assert_eq!(a, RemoteAction::Connect { hostname: "h".to_string(), port: 2200 });
}

#[test]
fn remote_nonzero_status_is_failure() {
    let c = creds("u", "h").password("pw".to_string()).build();
    let (mut s, _) = RemoteSession::new(&c, "false", &[]);
    s.step(RemoteEvent::StepDone);
    s.step(RemoteEvent::StepDone);
    s.step(RemoteEvent::StepDone);
    s.step(RemoteEvent::AuthenticationChecked(true));
    let done = s.step(RemoteEvent::Completed { output: String::new(), status: 7 });
    assert_eq!(done, RemoteAction::Finish(Ok((ExitCode::ExitFailure(7), String::new()))));
}

#[test]
fn remote_without_credentials_fails_authentication() {
    let c = creds("u", "h").build();
    let (mut s, _) = RemoteSession::new(&c, "ls", &[]);
    assert_eq!(s.step(RemoteEvent::StepDone), RemoteAction::Handshake);
    assert_eq!(
        s.step(RemoteEvent::StepDone),
        RemoteAction::Finish(Err(CmdError::Authentication("no authentication method".to_string())))
    );
    assert_eq!(s.phase, RemotePhase::Done);
    assert_eq!(s.step(RemoteEvent::AuthenticationChecked(true)), RemoteAction::Finish(Err(CmdError::Unknown)));
}

#[test]
fn remote_step_errors_by_phase() {
    let c = creds("u", "h").private_key_file("/k".to_string()).build();
    let (mut s, _) = RemoteSession::new(&c, "ls", &[]);
    assert_eq!(
        s.step(RemoteEvent::StepFailed("refused".to_string())),
        RemoteAction::Finish(Err(CmdError::Connection("refused".to_string())))
    );

    let (mut s, _) = RemoteSession::new(&c, "ls", &[]);
    s.step(RemoteEvent::StepDone);
    assert_eq!(
        s.step(RemoteEvent::StepFailed("kex".to_string())),
        RemoteAction::Finish(Err(CmdError::Handshake("kex".to_string())))
    );

    let (mut s, _) = RemoteSession::new(&c, "ls", &[]);
    s.step(RemoteEvent::StepDone);
    s.step(RemoteEvent::StepDone);
    assert_eq!(
        s.step(RemoteEvent::StepFailed("denied".to_string())),
        RemoteAction::Finish(Err(CmdError::Authentication("denied".to_string())))
    );

    let (mut s, _) = RemoteSession::new(&c, "ls", &[]);
    s.step(RemoteEvent::StepDone);
    s.step(RemoteEvent::StepDone);
    s.step(RemoteEvent::StepDone);
    assert_eq!(
        s.step(RemoteEvent::AuthenticationChecked(false)),
        RemoteAction::Finish(Err(CmdError::Authentication("not authenticated".to_string())))
    );

    let (mut s, _) = RemoteSession::new(&c, "ls", &[]);
    s.step(RemoteEvent::StepDone);
    s.step(RemoteEvent::StepDone);
    s.step(RemoteEvent::StepDone);
    s.step(RemoteEvent::AuthenticationChecked(true));
    assert_eq!(
        s.step(RemoteEvent::StepFailed("exec".to_string())),
        RemoteAction::Finish(Err(CmdError::Execute("exec".to_string())))
    );
}

#[test]
fn remote_protocol_and_io_errors() {
    let c = creds("u", "h").password("pw".to_string()).build();
    let (mut s, _) = RemoteSession::new(&c, "ls", &[]);
    assert_eq!(
        s.step(RemoteEvent::ProtocolFailed("session".to_string())),
        RemoteAction::Finish(Err(CmdError::Ssh("session".to_string())))
    );
    let (mut s, _) = RemoteSession::new(&c, "ls", &[]);
    assert_eq!(
        s.step(RemoteEvent::IoFailed("read".to_string())),
        RemoteAction::Finish(Err(CmdError::Io("read".to_string())))
    );
    let (mut s, _) = RemoteSession::new(&c, "ls", &[]);
    assert_eq!(
        s.step(RemoteEvent::Completed { output: String::new(), status: 0 }),
        RemoteAction::Finish(Err(CmdError::Unknown))
    );
}

#[test]
fn status_only_drops_output() {
    assert_eq!(status_only(Ok((ExitCode::ExitFailure(2), "x".to_string()))), Ok(ExitCode::ExitFailure(2)));
    assert_eq!(status_only(Err(CmdError::NoExitCode)), Err(CmdError::NoExitCode));
}

#[test]
fn local_and_remote_agree_on_echo() {
    let local = execute_outcome(b"hello\n", b"", Some(0));
    let c = creds("u", "h").password("pw".to_string()).build();
    let (mut s, _) = RemoteSession::new(&c, "echo", &["hello"]);
    s.step(RemoteEvent::StepDone);
    s.step(RemoteEvent::StepDone);
    s.step(RemoteEvent::StepDone);
    s.step(RemoteEvent::AuthenticationChecked(true));
    let remote = s.step(RemoteEvent::Completed { output: "hello\n".to_string(), status: 0 });
    assert_eq!(remote, RemoteAction::Finish(local));
}
