//! The command/idle session: one exchange at a time on a connection, and the
//! long-poll `idle` wait, which only `noidle` may interrupt.
//!
//! Issuing an ordinary command while an idle wait is pending fails fast with
//! `MpdError::State`; the interrupt is never injected behind the caller's back.
//! Issuing the interrupt when no idle wait is pending changes nothing.

use vstd::prelude::*;
use crate::error::MpdError;
use crate::group::str_eq;

verus! {

#[derive(Copy, Clone, PartialEq, Eq, Structural)]
pub enum SessionState {
    /// Ready to accept any command.
    IdleOff,
    /// An `idle` command was sent and its reply has not yet come.
    IdleWaiting,
    /// One command was sent and its terminal line has not yet come.
    CommandInFlight,
}

/// What issuing a command means to the session.
#[derive(Copy, Clone, PartialEq, Eq, Structural)]
pub enum Request {
    /// Any command but the two below.
    Command,
    /// The long-poll wait for a change.
    Idle,
    /// The interrupt of a pending wait.
    NoIdle,
}

/// The state after issuing `r` in state `s`, or `None` where it may not be issued.
pub open spec fn issue_spec(s: SessionState, r: Request) -> Option<SessionState> {
    match (s, r) {
        (SessionState::IdleOff, Request::Command) => Some(SessionState::CommandInFlight),
        (SessionState::IdleOff, Request::Idle) => Some(SessionState::IdleWaiting),
        (SessionState::IdleOff, Request::NoIdle) => Some(SessionState::IdleOff),
        (SessionState::IdleWaiting, Request::NoIdle) => Some(SessionState::IdleWaiting),
        _ => None,
    }
}

/// The state after a terminal line arrives in state `s`, or `None` where no reply is awaited.
pub open spec fn complete_spec(s: SessionState) -> Option<SessionState> {
    match s {
        SessionState::IdleOff => None,
        _ => Some(SessionState::IdleOff),
    }
}

pub open spec fn request_of(name: Seq<char>) -> Request {
    if name == seq!['i', 'd', 'l', 'e'] {
        Request::Idle
    } else if name == seq!['n', 'o', 'i', 'd', 'l', 'e'] {
        Request::NoIdle
    } else {
        Request::Command
    }
}

/// What issuing the command of this name means to the session.
pub fn request_kind(name: &str) -> (r: Request)
    ensures
        r == request_of(name@),
{
    proof {
        reveal_strlit("idle");
        reveal_strlit("noidle");
        assert("idle"@ =~= seq!['i', 'd', 'l', 'e']);
        assert("noidle"@ =~= seq!['n', 'o', 'i', 'd', 'l', 'e']);
    }
    if str_eq(name, "idle") {
        Request::Idle
    } else if str_eq(name, "noidle") {
        Request::NoIdle
    } else {
        Request::Command
    }
}

/// The session of one connection.
pub struct Session {
    pub state: SessionState,
}

impl Session {
    pub fn new() -> (r: Session)
        ensures
            r.state == SessionState::IdleOff,
    {
        Session { state: SessionState::IdleOff }
    }

    /// Records that the command of this name is about to be sent; fails, and
    /// changes nothing, where the session cannot send it now.
    pub fn issue(&mut self, name: &str) -> (r: Result<(), MpdError>)
        ensures
            match issue_spec(old(self).state, request_of(name@)) {
                Some(s) => r is Ok && final(self).state == s,
                None => r matches Err(MpdError::State) && final(self).state == old(self).state,
            },
    {
        let req = request_kind(name);
        match (self.state, req) {
            (SessionState::IdleOff, Request::Command) => {
                self.state = SessionState::CommandInFlight;
                Ok(())
            },
            (SessionState::IdleOff, Request::Idle) => {
                self.state = SessionState::IdleWaiting;
                Ok(())
            },
            (SessionState::IdleOff, Request::NoIdle) => Ok(()),
            (SessionState::IdleWaiting, Request::NoIdle) => Ok(()),
            _ => Err(MpdError::State),
        }
    }

    /// Records that the terminal line of the pending exchange has arrived.
    pub fn complete(&mut self) -> (r: Result<(), MpdError>)
        ensures
            match complete_spec(old(self).state) {
                Some(s) => r is Ok && final(self).state == s,
                None => r matches Err(MpdError::State) && final(self).state == old(self).state,
            },
    {
        match self.state {
            SessionState::IdleOff => Err(MpdError::State),
            _ => {
                self.state = SessionState::IdleOff;
                Ok(())
            },
        }
    }
}

/// Issuing the interrupt when no idle wait is pending neither changes the state
/// nor fails.
pub proof fn lemma_noidle_when_idle_off_is_no_op()
    ensures
        issue_spec(SessionState::IdleOff, Request::NoIdle) == Some(SessionState::IdleOff),
{
}

/// After an idle wait, the only command that can be issued is the interrupt, and
/// the wait ends on the next terminal line.
pub proof fn lemma_idle_wait_admits_only_interrupt(r: Request)
    ensures
        issue_spec(SessionState::IdleWaiting, r) is Some <==> r == Request::NoIdle,
        complete_spec(SessionState::IdleWaiting) == Some(SessionState::IdleOff),
{
}

} // verus!
