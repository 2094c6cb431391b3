use vstd::prelude::*;

use crate::exec::ssh::SshCredentials;

verus! {

/// A target host: the local host, or a remote host reached over secure shell.
#[derive(Debug, PartialEq, Clone)]
pub enum Machine {
    LocalMachine,
    RemoteMachine(SshCredentials),
}

/// The host name of a machine: `localhost` for the local one.
pub open spec fn machine_host(m: Machine) -> Seq<char> {
    match m {
        Machine::LocalMachine => "localhost"@,
        Machine::RemoteMachine(c) => c.hostname@,
    }
}

/// The decimal digit for `d < 10`.
pub open spec fn digit_char(d: nat) -> char {
    if d == 0 { '0' }
    else if d == 1 { '1' }
    else if d == 2 { '2' }
    else if d == 3 { '3' }
    else if d == 4 { '4' }
    else if d == 5 { '5' }
    else if d == 6 { '6' }
    else if d == 7 { '7' }
    else if d == 8 { '8' }
    else { '9' }
}

/// The decimal notation of `n`, without leading zeros.
pub open spec fn decimal(n: nat) -> Seq<char>
    decreases n,
{
    if n < 10 {
        seq![digit_char(n)]
    } else {
        decimal(n / 10) + seq![digit_char(n % 10)]
    }
}

/// How a machine is shown: `localhost`, `hostname` or `hostname:port`.
pub open spec fn machine_text(m: Machine) -> Seq<char> {
    match m {
        Machine::LocalMachine => "localhost"@,
        Machine::RemoteMachine(c) => match c.port {
            Some(p) => c.hostname@ + ":"@ + decimal(p as nat),
            None => c.hostname@,
        },
    }
}

/// Relies on `u16`'s `to_string`: its decimal notation.
#[verifier::external_body]
fn port_text(port: u16) -> (r: String)
    ensures
        r@ == decimal(port as nat),
{
    port.to_string()
}

impl Machine {
    pub fn is_local(&self) -> (r: bool)
        ensures
            r == (*self is LocalMachine),
    {
        match self {
            Machine::LocalMachine => true,
            Machine::RemoteMachine(_) => false,
        }
    }

    pub fn hostname(&self) -> (r: &str)
        ensures
            r@ == machine_host(*self),
    {
        match self {
            Machine::LocalMachine => "localhost",
            Machine::RemoteMachine(creds) => creds.hostname.as_str(),
        }
    }

    /// The machine's display text.
    pub fn to_string(&self) -> (r: String)
        ensures
            r@ == machine_text(*self),
    {
        match self {
            Machine::LocalMachine => String::from_str("localhost"),
            Machine::RemoteMachine(creds) => {
                let mut s = creds.hostname.clone();
                match creds.port {
                    Some(p) => {
                        s.append(":");
                        let digits = port_text(p);
                        s.append(digits.as_str());
                    },
                    None => {},
                }
                s
            },
        }
    }
}

} // verus!
