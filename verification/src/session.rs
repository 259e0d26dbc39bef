//! The login session: its phase, the events that move it, and the state
//! that remembers the last event.

use vstd::prelude::*;

verus! {

/// Where the login session stands.
#[derive(Debug, Clone, Copy, PartialEq, Eq, Structural)]
pub enum SessionPhase {
    ReadyForLogin,
    LoggedIn,
    Disconnected,
}

pub open spec fn phase_name(phase: SessionPhase) -> Seq<char> {
    match phase {
        SessionPhase::ReadyForLogin => "ready-for-login"@,
        SessionPhase::LoggedIn => "logged-in"@,
        SessionPhase::Disconnected => "disconnected"@,
    }
}

impl SessionPhase {
    pub fn as_str(self) -> (r: &'static str)
        ensures
            r@ == phase_name(self),
    {
        match self {
            SessionPhase::ReadyForLogin => "ready-for-login",
            SessionPhase::LoggedIn => "logged-in",
            SessionPhase::Disconnected => "disconnected",
        }
    }
}

/// What the server or the user did to the session.
#[derive(Debug, Clone, Copy, PartialEq, Eq, Structural)]
pub enum SessionEvent {
    LoginSuccess,
    LoginFailure,
    Logout,
    Disconnect,
}

/// The phase that an event leads to, whatever the phase before it.
pub open spec fn event_target(event: SessionEvent) -> SessionPhase {
    match event {
        SessionEvent::LoginSuccess => SessionPhase::LoggedIn,
        SessionEvent::LoginFailure => SessionPhase::ReadyForLogin,
        SessionEvent::Logout => SessionPhase::ReadyForLogin,
        SessionEvent::Disconnect => SessionPhase::Disconnected,
    }
}

pub open spec fn event_name(event: SessionEvent) -> Seq<char> {
    match event {
        SessionEvent::LoginSuccess => "login-success"@,
        SessionEvent::LoginFailure => "login-failure"@,
        SessionEvent::Logout => "logout"@,
        SessionEvent::Disconnect => "disconnect"@,
    }
}

impl SessionEvent {
    pub fn next_phase(self) -> (r: SessionPhase)
        ensures
            r == event_target(self),
    {
        match self {
            SessionEvent::LoginSuccess => SessionPhase::LoggedIn,
            SessionEvent::LoginFailure => SessionPhase::ReadyForLogin,
            SessionEvent::Logout => SessionPhase::ReadyForLogin,
            SessionEvent::Disconnect => SessionPhase::Disconnected,
        }
    }

    pub fn as_str(self) -> (r: &'static str)
        ensures
            r@ == event_name(self),
    {
        match self {
            SessionEvent::LoginSuccess => "login-success",
            SessionEvent::LoginFailure => "login-failure",
            SessionEvent::Logout => "logout",
            SessionEvent::Disconnect => "disconnect",
        }
    }
}

/// The session phase together with the last event applied to it.
#[derive(Debug, Clone, Copy, PartialEq, Eq, Structural)]
pub struct SessionState {
    pub phase: SessionPhase,
    pub last_event: Option<SessionEvent>,
}

impl SessionState {
    /// A session that waits for a login and has seen no event.
    pub fn new() -> (r: Self)
        ensures
            r.phase == SessionPhase::ReadyForLogin,
            (r.last_event is None),
    {
        SessionState { phase: SessionPhase::ReadyForLogin, last_event: None }
    }

    pub fn phase(&self) -> (r: SessionPhase)
        ensures
            r == self.phase,
    {
        self.phase
    }

    pub fn state(&self) -> (r: SessionPhase)
        ensures
            r == self.phase,
    {
        self.phase()
    }

    pub fn last_event(&self) -> (r: Option<SessionEvent>)
        ensures
            r == self.last_event,
    {
        self.last_event
    }

    pub fn as_str(&self) -> (r: &'static str)
        ensures
            r@ == phase_name(self.phase),
    {
        self.phase.as_str()
    }

    pub fn is_ready_for_login(&self) -> (r: bool)
        ensures
            r == (self.phase == SessionPhase::ReadyForLogin),
    {
        self.phase == SessionPhase::ReadyForLogin
    }

    pub fn is_logged_in(&self) -> (r: bool)
        ensures
            r == (self.phase == SessionPhase::LoggedIn),
    {
        self.phase == SessionPhase::LoggedIn
    }

    pub fn is_disconnected(&self) -> (r: bool)
        ensures
            r == (self.phase == SessionPhase::Disconnected),
    {
        self.phase == SessionPhase::Disconnected
    }

    /// Records `event`, moves to the phase it leads to, and tells whether
    /// the phase changed.
    pub fn apply_event(&mut self, event: SessionEvent) -> (changed: bool)
        ensures
            *final(self) == after_event(*old(self), event),
            changed == event_changes(*old(self), event),
    {
        self.last_event = Some(event);
        let next_phase = event.next_phase();
        let changed = self.phase != next_phase;
        self.phase = next_phase;
        changed
    }

    pub fn login_success(&mut self) -> (changed: bool)
        ensures
            final(self).last_event == Some(SessionEvent::LoginSuccess),
            final(self).phase == SessionPhase::LoggedIn,
            changed == (old(self).phase != SessionPhase::LoggedIn),
    {
        self.apply_event(SessionEvent::LoginSuccess)
    }

    pub fn login_failure(&mut self) -> (changed: bool)
        ensures
            final(self).last_event == Some(SessionEvent::LoginFailure),
            final(self).phase == SessionPhase::ReadyForLogin,
            changed == (old(self).phase != SessionPhase::ReadyForLogin),
    {
        self.apply_event(SessionEvent::LoginFailure)
    }

    pub fn logout(&mut self) -> (changed: bool)
        ensures
            final(self).last_event == Some(SessionEvent::Logout),
            final(self).phase == SessionPhase::ReadyForLogin,
            changed == (old(self).phase != SessionPhase::ReadyForLogin),
    {
        self.apply_event(SessionEvent::Logout)
    }

    pub fn disconnect(&mut self) -> (changed: bool)
        ensures
            final(self).last_event == Some(SessionEvent::Disconnect),
            final(self).phase == SessionPhase::Disconnected,
            changed == (old(self).phase != SessionPhase::Disconnected),
    {
        self.apply_event(SessionEvent::Disconnect)
    }
}

impl Default for SessionState {
    fn default() -> (r: Self)
        ensures
            r.phase == SessionPhase::ReadyForLogin,
            (r.last_event is None),
    {
        SessionState::new()
    }
}

/// The session after `event` has been applied to `s`.
pub open spec fn after_event(s: SessionState, event: SessionEvent) -> SessionState {
    SessionState { phase: event_target(event), last_event: Some(event) }
}

/// Whether applying `event` to `s` changes the phase.
pub open spec fn event_changes(s: SessionState, event: SessionEvent) -> bool {
    s.phase != event_target(event)
}

/// Applying the same event a second time never changes the phase again:
/// the phase an event leads to does not depend on the phase before it.
pub proof fn lemma_repeated_event_changes_nothing(s: SessionState, event: SessionEvent)
    ensures
        !event_changes(after_event(s, event), event),
        after_event(after_event(s, event), event) == after_event(s, event),
{
}

/// A login failure, and a logout, both leave the session ready for the
/// next login whatever it was doing before.
pub proof fn lemma_failure_and_logout_return_to_login(s: SessionState)
    ensures
        after_event(s, SessionEvent::LoginFailure).phase == SessionPhase::ReadyForLogin,
        after_event(s, SessionEvent::Logout).phase == SessionPhase::ReadyForLogin,
        after_event(s, SessionEvent::LoginSuccess).phase == SessionPhase::LoggedIn,
        after_event(s, SessionEvent::Disconnect).phase == SessionPhase::Disconnected,
{
}

} // verus!
