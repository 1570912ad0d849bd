//! The session engine: connection state, greeting handling, and the login
//! exchange as an explicit state machine.
//!
//! The engine owns no socket. The caller opens the transport, reads decoded
//! lines in and writes framed command lines out; every decision in between
//! stands here and is verified. `login` is driven by events: `Start` yields
//! the `USER` command, each interpreted server outcome yields the next
//! command (`PASS`, or the `APOP` fallback when `USER` was rejected) until
//! the exchange completes.

use crate::digest::apop_digest;
use crate::digest::spec_apop_digest;
use crate::errors::Pop3Error;
use crate::protocol::extract_timestamp;
use crate::protocol::spec_timestamp;
use crate::state::POP3State;
use crate::state::SessionEvent;
use crate::state::transition;
use vstd::prelude::*;

verus! {

/// The marker a successful session operation returns.
#[derive(Debug, Clone, Copy, PartialEq, Eq, Structural)]
pub enum POP3Data {
    Login,
}

/// Where a login exchange stands between two calls of `login`.
#[derive(Debug, Clone, Copy, PartialEq, Eq, Structural)]
pub enum LoginPhase {
    /// No login exchange is under way.
    Idle,
    /// `USER` was handed out; the server's verdict is awaited.
    AwaitingUser,
    /// The final command, `PASS` or `APOP`, was handed out.
    AwaitingFinal,
}

/// What the login state machine asks of its caller next.
#[derive(Debug)]
pub enum LoginAction {
    /// Write this command line to the server, read the single-line
    /// response, and feed its interpreted outcome back as the next event.
    Send(String),
    /// The login exchange is complete.
    Done(POP3Data),
}

/// What the caller feeds into the login state machine.
#[derive(Debug)]
pub enum LoginEvent {
    /// Begin the exchange.
    Start,
    /// The interpreted outcome of the command last handed out.
    Outcome(Result<Vec<String>, Pop3Error>),
}

/// The transport security mode of a connection, chosen once at
/// construction; the engine never branches on it afterwards.
#[derive(Debug, Clone, Copy, PartialEq, Eq, Structural)]
pub enum AuthMode {
    Plain,
    Ssl,
}

/// Interpret the auth-mode string of the connection parameters: `"Plain"`
/// selects a plaintext socket, `"SSL"` a TLS-secured one, and anything
/// else is rejected before any connection is attempted.
pub fn parse_auth_mode(mode: &str) -> (r: Result<AuthMode, Pop3Error>)
    ensures
        mode@ == "Plain"@ ==> r == Ok::<AuthMode, Pop3Error>(AuthMode::Plain),
        mode@ == "SSL"@ ==> r == Ok::<AuthMode, Pop3Error>(AuthMode::Ssl),
        mode@ != "Plain"@ && mode@ != "SSL"@ ==> (r matches Err(Pop3Error::Transport(t)) && t@
            == "unknown auth type"@),
{
    proof {
        reveal_strlit("Plain");
        reveal_strlit("SSL");
    }
    let n = mode.unicode_len();
    if n == 5 && mode.get_char(0) == 'P' && mode.get_char(1) == 'l' && mode.get_char(2) == 'a'
        && mode.get_char(3) == 'i' && mode.get_char(4) == 'n' {
        proof {
            assert(mode@ =~= "Plain"@);
        }
        Ok(AuthMode::Plain)
    } else if n == 3 && mode.get_char(0) == 'S' && mode.get_char(1) == 'S' && mode.get_char(2)
        == 'L' {
        proof {
            assert(mode@ =~= "SSL"@);
        }
        Ok(AuthMode::Ssl)
    } else {
        Err(Pop3Error::Transport(String::from_str("unknown auth type")))
    }
}

/// The `USER` command line.
pub open spec fn spec_user_line(username: Seq<char>) -> Seq<char> {
    "USER "@ + username
}

/// The `PASS` command line.
pub open spec fn spec_pass_line(password: Seq<char>) -> Seq<char> {
    "PASS "@ + password
}

/// The `APOP` command line: the username and the digest of the greeting
/// timestamp concatenated with the password.
pub open spec fn spec_apop_line(
    username: Seq<char>,
    timestamp: Seq<char>,
    password: Seq<char>,
) -> Seq<char> {
    "APOP "@ + username + " "@ + spec_apop_digest(timestamp, password)
}

/// One POP3 session: the account's credentials, the current lifecycle
/// state, the greeting timestamp, and where the login exchange stands.
pub struct POP3Connection {
    pub username: String,
    pub password: String,
    pub state: POP3State,
    pub timestamp: String,
    pub phase: LoginPhase,
}

impl POP3Connection {
    /// A login exchange is only ever under way in the authorization state.
    pub open spec fn wf(self) -> bool {
        self.phase != LoginPhase::Idle ==> self.state == POP3State::Authorization
    }

    /// Do two connections agree on everything but lifecycle state and
    /// login phase?
    pub open spec fn same_identity(self, other: POP3Connection) -> bool {
        &&& self.username == other.username
        &&& self.password == other.password
        &&& self.timestamp == other.timestamp
    }

    /// A fresh session for the given account, before the greeting is read.
    pub fn new(username: String, password: String) -> (c: POP3Connection)
        ensures
            c.username == username,
            c.password == password,
            c.state == POP3State::Begin,
            c.timestamp@ == Seq::<char>::empty(),
            c.phase == LoginPhase::Idle,
            c.wf(),
    {
        POP3Connection {
            username,
            password,
            state: POP3State::Begin,
            timestamp: String::new(),
            phase: LoginPhase::Idle,
        }
    }

    /// Take in the server's greeting line: capture its timestamp token
    /// (empty when the greeting carries none) and advance to the
    /// authorization state. Anywhere but at the beginning of the session
    /// this is an invalid-state error and changes nothing.
    pub fn on_greeting(&mut self, greeting: &str) -> (r: Result<(), Pop3Error>)
        requires
            old(self).wf(),
        ensures
            final(self).wf(),
            old(self).state == POP3State::Begin ==> {
                &&& r == Ok::<(), Pop3Error>(())
                &&& final(self).state == POP3State::Authorization
                &&& final(self).timestamp@ == spec_timestamp(greeting@)
                &&& final(self).username == old(self).username
                &&& final(self).password == old(self).password
                &&& final(self).phase == old(self).phase
            },
            old(self).state != POP3State::Begin ==> {
                &&& r == Err::<(), Pop3Error>(Pop3Error::InvalidState)
                &&& *final(self) == *old(self)
            },
    {
        match transition(self.state, SessionEvent::GreetingParsed) {
            Some(next) => {
                self.timestamp = extract_timestamp(greeting);
                self.state = next;
                Ok(())
            },
            None => Err(Pop3Error::InvalidState),
        }
    }

    /// Drive the login exchange by one event.
    ///
    /// `Start` is accepted only in the authorization state with no exchange
    /// under way, and yields the `USER` command. The outcome of `USER`
    /// yields `PASS` when the server accepted it and the `APOP` fallback
    /// when it rejected it — any rejection at all triggers the fallback,
    /// deliberately broad. A successful final outcome completes the login
    /// and advances the session to the transaction state; a failed one
    /// surfaces the server's error and leaves the state unchanged. Any
    /// event out of order is an invalid-state error, and no command is
    /// handed out, so no I/O can follow from it.
    pub fn login(&mut self, event: LoginEvent) -> (r: Result<LoginAction, Pop3Error>)
        requires
            old(self).wf(),
        ensures
            final(self).wf(),
            final(self).same_identity(*old(self)),
            match (old(self).phase, event) {
                (LoginPhase::Idle, LoginEvent::Start) => {
                    if old(self).state == POP3State::Authorization {
                        &&& r matches Ok(LoginAction::Send(cmd)) && cmd@ == spec_user_line(
                            old(self).username@,
                        )
                        &&& final(self).phase == LoginPhase::AwaitingUser
                        &&& final(self).state == old(self).state
                    } else {
                        &&& r == Err::<LoginAction, Pop3Error>(Pop3Error::InvalidState)
                        &&& *final(self) == *old(self)
                    }
                },
                (LoginPhase::AwaitingUser, LoginEvent::Outcome(out)) => {
                    &&& final(self).phase == LoginPhase::AwaitingFinal
                    &&& final(self).state == old(self).state
                    &&& out is Ok ==> (r matches Ok(LoginAction::Send(cmd)) && cmd@
                        == spec_pass_line(old(self).password@))
                    &&& out is Err ==> (r matches Ok(LoginAction::Send(cmd)) && cmd@
                        == spec_apop_line(
                        old(self).username@,
                        old(self).timestamp@,
                        old(self).password@,
                    ))
                },
                (LoginPhase::AwaitingFinal, LoginEvent::Outcome(out)) => {
                    &&& final(self).phase == LoginPhase::Idle
                    &&& out is Ok ==> (final(self).state == POP3State::Transaction && r == Ok::<
                        LoginAction,
                        Pop3Error,
                    >(LoginAction::Done(POP3Data::Login)))
                    &&& (out matches Err(e) ==> (final(self).state == old(self).state && r == Err::<
                        LoginAction,
                        Pop3Error,
                    >(e)))
                },
                _ => {
                    &&& r == Err::<LoginAction, Pop3Error>(Pop3Error::InvalidState)
                    &&& *final(self) == *old(self)
                },
            },
    {
        match event {
            LoginEvent::Start => {
                if self.phase == LoginPhase::Idle && self.state == POP3State::Authorization {
                    let mut cmd = String::from_str("USER ");
                    cmd.append(self.username.as_str());
                    self.phase = LoginPhase::AwaitingUser;
                    Ok(LoginAction::Send(cmd))
                } else {
                    Err(Pop3Error::InvalidState)
                }
            },
            LoginEvent::Outcome(out) => {
                match self.phase {
                    LoginPhase::Idle => Err(Pop3Error::InvalidState),
                    LoginPhase::AwaitingUser => {
                        self.phase = LoginPhase::AwaitingFinal;
                        match out {
                            Ok(_) => {
                                let mut cmd = String::from_str("PASS ");
                                cmd.append(self.password.as_str());
                                Ok(LoginAction::Send(cmd))
                            },
                            Err(_) => {
                                // The APOP fallback: triggered by any USER
                                // failure, not only an unrecognized command.
                                let digest = apop_digest(
                                    self.timestamp.as_str(),
                                    self.password.as_str(),
                                );
                                let mut cmd = String::from_str("APOP ");
                                cmd.append(self.username.as_str());
                                cmd.append(" ");
                                cmd.append(digest.as_str());
                                Ok(LoginAction::Send(cmd))
                            },
                        }
                    },
                    LoginPhase::AwaitingFinal => {
                        self.phase = LoginPhase::Idle;
                        match out {
                            Ok(_) => {
                                match transition(self.state, SessionEvent::LoginSucceeded) {
                                    Some(next) => {
                                        self.state = next;
                                        Ok(LoginAction::Done(POP3Data::Login))
                                    },
                                    None => Err(Pop3Error::InvalidState),
                                }
                            },
                            Err(e) => Err(e),
                        }
                    },
                }
            },
        }
    }
}

} // verus!
