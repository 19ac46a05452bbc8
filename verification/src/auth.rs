//! Establishing the session: restore what the session file holds, or log in.
//!
//! The session manager decides; it performs nothing itself. It issues one
//! request at a time ([`AuthAction`]), the runtime performs it against the
//! disk or the server and reports what happened ([`AuthEvent`]), and the
//! manager answers with the next request, until it gives its verdict.
//!
//! A session that cannot be restored is no failure: the manager falls back
//! to logging in. A login that fails is final. A session that was obtained
//! by login but could not be written to disk is still a session: the verdict
//! carries it, and says that it was not stored.

use crate::config::{Config, ConfigView};
use crate::session::{
    parse_session, record_view, render_session, session_yaml, yaml_session, bytes_view,
    SessionRecord, SessionRecordView,
};
use vstd::prelude::*;

verus! {

/// The display name under which a new device is registered at login.
pub const DEVICE_DISPLAY_NAME: &'static str = "collin-matrix-client";

/// Where the establishment of the session stands.
#[derive(Clone, Copy, Debug, PartialEq, Eq, Structural)]
pub enum AuthState {
    /// Nothing has been requested yet.
    Start,
    /// The session file is being read, or its session is being restored.
    RestoreAttempted,
    /// Login was requested; its session may be on its way to disk.
    LoginAttempted,
    /// The client holds a valid session.
    Authenticated,
    /// Login failed, or gave a session that cannot be used.
    Failed,
}

/// Why the manager logs in instead of restoring.
#[derive(Clone, Copy, Debug, PartialEq, Eq, Structural)]
pub enum LoginReason {
    /// There is no session file.
    NoSessionFile,
    /// The session file exists and could not be read.
    SessionFileUnreadable,
    /// The session file does not hold a session.
    SessionFileCorrupt,
    /// The server refused the session of the session file.
    SessionRejected,
}

/// Why establishing the session failed.
#[derive(Clone, Copy, Debug, PartialEq, Eq, Structural)]
pub enum AuthError {
    /// The login call failed.
    LoginFailed,
    /// The login call succeeded and the client holds no session.
    NoSession,
    /// The session obtained by login is not a password session.
    UnsupportedSessionKind,
}

/// Why a session obtained by login is not on disk.
#[derive(Clone, Copy, Debug, PartialEq, Eq, Structural)]
pub enum PersistError {
    /// The session has no form that could be written.
    Render,
    /// Writing the session file failed.
    Write,
}

/// Whether the session file holds the session.
#[derive(Clone, Copy, Debug, PartialEq, Eq, Structural)]
pub enum Persistence {
    /// The session file holds the session.
    Stored,
    /// The session is valid for this run only.
    Failed(PersistError),
}

/// How the session was obtained.
#[derive(Clone, Copy, Debug, PartialEq, Eq, Structural)]
pub enum SessionOrigin {
    Restored,
    LoggedIn,
}

/// The session the client holds right after login, by its kind.
#[derive(Debug, Clone, PartialEq, Eq)]
pub enum CurrentSession {
    /// A session of the password-based kind.
    Password(SessionRecord),
    /// A session of any other kind.
    Other,
}

pub enum CurrentSessionView {
    Password(SessionRecordView),
    Other,
}

impl View for CurrentSession {
    type V = CurrentSessionView;

    open spec fn view(&self) -> CurrentSessionView {
        match self {
            CurrentSession::Password(session) => CurrentSessionView::Password(session@),
            CurrentSession::Other => CurrentSessionView::Other,
        }
    }
}

/// The plain text of an optional current session.
pub open spec fn current_view(current: Option<CurrentSession>) -> Option<CurrentSessionView> {
    match current {
        Some(current) => Some(current@),
        None => None,
    }
}

/// The verdict of a successful establishment.
#[derive(Debug, Clone, PartialEq, Eq)]
pub struct AuthenticatedSession {
    /// The session the client now holds.
    pub session: SessionRecord,
    /// Whether it was restored or obtained by login.
    pub origin: SessionOrigin,
    /// Whether the session file holds it.
    pub persistence: Persistence,
}

pub struct AuthenticatedSessionView {
    pub session: SessionRecordView,
    pub origin: SessionOrigin,
    pub persistence: Persistence,
}

impl View for AuthenticatedSession {
    type V = AuthenticatedSessionView;

    open spec fn view(&self) -> AuthenticatedSessionView {
        AuthenticatedSessionView {
            session: self.session@,
            origin: self.origin,
            persistence: self.persistence,
        }
    }
}

/// What the runtime reports to the manager.
#[derive(Debug, PartialEq, Eq)]
pub enum AuthEvent {
    /// Establishment is to begin.
    Started,
    /// There is no session file.
    SessionFileMissing,
    /// The session file exists and could not be read.
    SessionFileUnreadable,
    /// The session file was read; these are its bytes.
    SessionFileRead(Vec<u8>),
    /// The server accepted the restored session.
    RestoreAccepted,
    /// The server refused the restored session.
    RestoreRejected,
    /// The login call failed.
    LoginFailed,
    /// The login call succeeded; this is the session the client now holds.
    LoggedIn(Option<CurrentSession>),
    /// The session file was written.
    SessionFileWritten,
    /// Writing the session file failed.
    SessionFileNotWritten,
}

pub enum AuthEventView {
    Started,
    SessionFileMissing,
    SessionFileUnreadable,
    SessionFileRead(Seq<u8>),
    RestoreAccepted,
    RestoreRejected,
    LoginFailed,
    LoggedIn(Option<CurrentSessionView>),
    SessionFileWritten,
    SessionFileNotWritten,
}

impl View for AuthEvent {
    type V = AuthEventView;

    open spec fn view(&self) -> AuthEventView {
        match self {
            AuthEvent::Started => AuthEventView::Started,
            AuthEvent::SessionFileMissing => AuthEventView::SessionFileMissing,
            AuthEvent::SessionFileUnreadable => AuthEventView::SessionFileUnreadable,
            AuthEvent::SessionFileRead(bytes) => AuthEventView::SessionFileRead(bytes@),
            AuthEvent::RestoreAccepted => AuthEventView::RestoreAccepted,
            AuthEvent::RestoreRejected => AuthEventView::RestoreRejected,
            AuthEvent::LoginFailed => AuthEventView::LoginFailed,
            AuthEvent::LoggedIn(current) => AuthEventView::LoggedIn(current_view(*current)),
            AuthEvent::SessionFileWritten => AuthEventView::SessionFileWritten,
            AuthEvent::SessionFileNotWritten => AuthEventView::SessionFileNotWritten,
        }
    }
}

/// What the manager asks of the runtime.
#[derive(Debug, PartialEq, Eq)]
pub enum AuthAction {
    /// Read the session file at `path`, if there is one.
    ReadSessionFile { path: String },
    /// Restore `session` on the client.
    RestoreSession { session: SessionRecord },
    /// Log in with these credentials, registering the device under
    /// `device_name`.
    Login { username: String, password: String, device_name: String, reason: LoginReason },
    /// Replace the session file at `path` by `contents`.
    WriteSessionFile { path: String, contents: Vec<u8> },
    /// Establishment is over, with this verdict.
    Finish { verdict: Result<AuthenticatedSession, AuthError> },
    /// The event answered no outstanding request and was passed over.
    Ignored,
}

pub enum AuthActionView {
    ReadSessionFile { path: Seq<char> },
    RestoreSession { session: SessionRecordView },
    Login { username: Seq<char>, password: Seq<char>, device_name: Seq<char>, reason: LoginReason },
    WriteSessionFile { path: Seq<char>, contents: Seq<u8> },
    Finish { verdict: Result<AuthenticatedSessionView, AuthError> },
    Ignored,
}

impl View for AuthAction {
    type V = AuthActionView;

    open spec fn view(&self) -> AuthActionView {
        match self {
            AuthAction::ReadSessionFile { path } => AuthActionView::ReadSessionFile { path: path@ },
            AuthAction::RestoreSession { session } => AuthActionView::RestoreSession {
                session: session@,
            },
            AuthAction::Login { username, password, device_name, reason } => AuthActionView::Login {
                username: username@,
                password: password@,
                device_name: device_name@,
                reason: *reason,
            },
            AuthAction::WriteSessionFile { path, contents } => AuthActionView::WriteSessionFile {
                path: path@,
                contents: contents@,
            },
            AuthAction::Finish { verdict } => AuthActionView::Finish {
                verdict: match verdict {
                    Ok(session) => Ok(session@),
                    Err(error) => Err(*error),
                },
            },
            AuthAction::Ignored => AuthActionView::Ignored,
        }
    }
}

/// The request that is outstanding, with what the manager keeps for it.
#[derive(Debug, PartialEq, Eq)]
pub enum AuthPhase {
    Start,
    ReadingSessionFile,
    /// The server is asked to accept this session.
    Restoring(SessionRecord),
    LoggingIn,
    /// This session, obtained by login, is being written to disk.
    Persisting(SessionRecord),
    Authenticated,
    Failed,
}

pub enum AuthPhaseView {
    Start,
    ReadingSessionFile,
    Restoring(SessionRecordView),
    LoggingIn,
    Persisting(SessionRecordView),
    Authenticated,
    Failed,
}

impl View for AuthPhase {
    type V = AuthPhaseView;

    open spec fn view(&self) -> AuthPhaseView {
        match self {
            AuthPhase::Start => AuthPhaseView::Start,
            AuthPhase::ReadingSessionFile => AuthPhaseView::ReadingSessionFile,
            AuthPhase::Restoring(session) => AuthPhaseView::Restoring(session@),
            AuthPhase::LoggingIn => AuthPhaseView::LoggingIn,
            AuthPhase::Persisting(session) => AuthPhaseView::Persisting(session@),
            AuthPhase::Authenticated => AuthPhaseView::Authenticated,
            AuthPhase::Failed => AuthPhaseView::Failed,
        }
    }
}

impl AuthPhaseView {
    /// The state that the phase belongs to.
    pub open spec fn state(self) -> AuthState {
        match self {
            AuthPhaseView::Start => AuthState::Start,
            AuthPhaseView::ReadingSessionFile => AuthState::RestoreAttempted,
            AuthPhaseView::Restoring(_) => AuthState::RestoreAttempted,
            AuthPhaseView::LoggingIn => AuthState::LoginAttempted,
            AuthPhaseView::Persisting(_) => AuthState::LoginAttempted,
            AuthPhaseView::Authenticated => AuthState::Authenticated,
            AuthPhaseView::Failed => AuthState::Failed,
        }
    }
}

/// The session manager, as the transition function sees it.
pub struct ManagerView {
    pub config: ConfigView,
    pub phase: AuthPhaseView,
}

impl ManagerView {
    /// The manager before anything was requested.
    pub open spec fn initial(config: ConfigView) -> ManagerView {
        ManagerView { config, phase: AuthPhaseView::Start }
    }

    /// The manager in another phase.
    pub open spec fn moved_to(self, phase: AuthPhaseView) -> ManagerView {
        ManagerView { config: self.config, phase }
    }

    /// Restoring is given up for `reason`: login is requested, with the
    /// configured credentials and the fixed device name.
    pub open spec fn fall_back_to_login(self, reason: LoginReason) -> (ManagerView, AuthActionView) {
        (
            self.moved_to(AuthPhaseView::LoggingIn),
            AuthActionView::Login {
                username: self.config.username,
                password: self.config.password,
                device_name: DEVICE_DISPLAY_NAME@,
                reason,
            },
        )
    }

    /// The verdict is that the client holds `session`.
    pub open spec fn succeed(self, session: AuthenticatedSessionView) -> (
        ManagerView,
        AuthActionView,
    ) {
        (
            self.moved_to(AuthPhaseView::Authenticated),
            AuthActionView::Finish { verdict: Ok(session) },
        )
    }

    /// The verdict is that no session could be established.
    pub open spec fn fail(self, error: AuthError) -> (ManagerView, AuthActionView) {
        (self.moved_to(AuthPhaseView::Failed), AuthActionView::Finish { verdict: Err(error) })
    }

    /// What follows once the bytes of the session file were parsed: a
    /// session is sent to be restored; bytes that hold none lead to login.
    pub open spec fn after_parse(self, parsed: Option<SessionRecordView>) -> (
        ManagerView,
        AuthActionView,
    ) {
        match parsed {
            Some(session) => (
                self.moved_to(AuthPhaseView::Restoring(session)),
                AuthActionView::RestoreSession { session },
            ),
            None => self.fall_back_to_login(LoginReason::SessionFileCorrupt),
        }
    }

    /// What follows once the session obtained by login was rendered for the
    /// disk: the bytes are sent to be written to the configured path; a
    /// session without a written form is valid all the same, and the
    /// verdict says that it is not stored.
    pub open spec fn after_render(self, session: SessionRecordView, rendered: Option<Seq<u8>>) -> (
        ManagerView,
        AuthActionView,
    ) {
        match rendered {
            Some(contents) => (
                self.moved_to(AuthPhaseView::Persisting(session)),
                AuthActionView::WriteSessionFile { path: self.config.session_path, contents },
            ),
            None => self.succeed(
                AuthenticatedSessionView {
                    session,
                    origin: SessionOrigin::LoggedIn,
                    persistence: Persistence::Failed(PersistError::Render),
                },
            ),
        }
    }

    /// What follows a successful login call: only a password session is
    /// taken on.
    pub open spec fn after_login(self, current: Option<CurrentSessionView>) -> (
        ManagerView,
        AuthActionView,
    ) {
        match current {
            Some(CurrentSessionView::Password(session)) => self.after_render(
                session,
                session_yaml(session),
            ),
            Some(CurrentSessionView::Other) => self.fail(AuthError::UnsupportedSessionKind),
            None => self.fail(AuthError::NoSession),
        }
    }

    /// The manager and the request that follow `event`.
    ///
    /// An event that does not answer the outstanding request changes
    /// nothing and is answered with [`AuthAction::Ignored`]; so is every
    /// event after the verdict.
    pub open spec fn transition(self, event: AuthEventView) -> (ManagerView, AuthActionView) {
        match (self.phase, event) {
            (AuthPhaseView::Start, AuthEventView::Started) => (
                self.moved_to(AuthPhaseView::ReadingSessionFile),
                AuthActionView::ReadSessionFile { path: self.config.session_path },
            ),
            (
                AuthPhaseView::ReadingSessionFile,
                AuthEventView::SessionFileMissing,
            ) => self.fall_back_to_login(LoginReason::NoSessionFile),
            (
                AuthPhaseView::ReadingSessionFile,
                AuthEventView::SessionFileUnreadable,
            ) => self.fall_back_to_login(LoginReason::SessionFileUnreadable),
            (
                AuthPhaseView::ReadingSessionFile,
                AuthEventView::SessionFileRead(bytes),
            ) => self.after_parse(yaml_session(bytes)),
            (AuthPhaseView::Restoring(session), AuthEventView::RestoreAccepted) => self.succeed(
                AuthenticatedSessionView {
                    session,
                    origin: SessionOrigin::Restored,
                    persistence: Persistence::Stored,
                },
            ),
            (
                AuthPhaseView::Restoring(_),
                AuthEventView::RestoreRejected,
            ) => self.fall_back_to_login(LoginReason::SessionRejected),
            (AuthPhaseView::LoggingIn, AuthEventView::LoginFailed) => self.fail(
                AuthError::LoginFailed,
            ),
            (AuthPhaseView::LoggingIn, AuthEventView::LoggedIn(current)) => self.after_login(
                current,
            ),
            (AuthPhaseView::Persisting(session), AuthEventView::SessionFileWritten) => self.succeed(
                AuthenticatedSessionView {
                    session,
                    origin: SessionOrigin::LoggedIn,
                    persistence: Persistence::Stored,
                },
            ),
            (
                AuthPhaseView::Persisting(session),
                AuthEventView::SessionFileNotWritten,
            ) => self.succeed(
                AuthenticatedSessionView {
                    session,
                    origin: SessionOrigin::LoggedIn,
                    persistence: Persistence::Failed(PersistError::Write),
                },
            ),
            _ => (self, AuthActionView::Ignored),
        }
    }
}

/// The session manager: it holds the settings and the request that is
/// outstanding.
#[derive(Debug)]
pub struct SessionManager {
    config: Config,
    phase: AuthPhase,
}

impl View for SessionManager {
    type V = ManagerView;

    closed spec fn view(&self) -> ManagerView {
        ManagerView { config: self.config@, phase: self.phase@ }
    }
}

impl SessionManager {
    /// A manager for `config`, before anything was requested.
    pub fn new(config: Config) -> (manager: SessionManager)
        ensures
            manager@ == ManagerView::initial(config@),
    {
        SessionManager { config, phase: AuthPhase::Start }
    }

    /// The settings the manager works with.
    pub fn config(&self) -> (config: &Config)
        ensures
            config@ == self@.config,
    {
        &self.config
    }

    /// Where the establishment stands.
    pub fn state(&self) -> (state: AuthState)
        ensures
            state == self@.phase.state(),
    {
        match &self.phase {
            AuthPhase::Start => AuthState::Start,
            AuthPhase::ReadingSessionFile => AuthState::RestoreAttempted,
            AuthPhase::Restoring(_) => AuthState::RestoreAttempted,
            AuthPhase::LoggingIn => AuthState::LoginAttempted,
            AuthPhase::Persisting(_) => AuthState::LoginAttempted,
            AuthPhase::Authenticated => AuthState::Authenticated,
            AuthPhase::Failed => AuthState::Failed,
        }
    }

    fn fall_back_to_login(self, reason: LoginReason) -> (next: (SessionManager, AuthAction))
        ensures
            (next.0@, next.1@) == self@.fall_back_to_login(reason),
    {
        let action = AuthAction::Login {
            username: self.config.username().clone(),
            password: self.config.password().clone(),
            device_name: DEVICE_DISPLAY_NAME.to_owned(),
            reason,
        };
        (SessionManager { config: self.config, phase: AuthPhase::LoggingIn }, action)
    }

    fn succeed(self, session: AuthenticatedSession) -> (next: (SessionManager, AuthAction))
        ensures
            (next.0@, next.1@) == self@.succeed(session@),
    {
        (
            SessionManager { config: self.config, phase: AuthPhase::Authenticated },
            AuthAction::Finish { verdict: Ok(session) },
        )
    }

    fn fail(self, error: AuthError) -> (next: (SessionManager, AuthAction))
        ensures
            (next.0@, next.1@) == self@.fail(error),
    {
        (
            SessionManager { config: self.config, phase: AuthPhase::Failed },
            AuthAction::Finish { verdict: Err(error) },
        )
    }

    /// Takes what parsing the session file gave and says what is next: the
    /// session is sent to be restored; where there is none, login is
    /// requested.
    pub fn after_parse(self, parsed: Option<SessionRecord>) -> (next: (SessionManager, AuthAction))
        ensures
            (next.0@, next.1@) == self@.after_parse(record_view(parsed)),
    {
        match parsed {
            Some(session) => {
                let kept = session.duplicate();
                (
                    SessionManager { config: self.config, phase: AuthPhase::Restoring(kept) },
                    AuthAction::RestoreSession { session },
                )
            },
            None => self.fall_back_to_login(LoginReason::SessionFileCorrupt),
        }
    }

    /// Takes the session obtained by login and what rendering it for the
    /// disk gave, and says what is next: the bytes are sent to be written;
    /// where there are none, the verdict is the session, not stored.
    pub fn after_render(self, session: SessionRecord, rendered: Option<Vec<u8>>) -> (next: (
        SessionManager,
        AuthAction,
    ))
        ensures
            (next.0@, next.1@) == self@.after_render(session@, bytes_view(rendered)),
    {
        match rendered {
            Some(contents) => {
                let path = self.config.session_path().clone();
                (
                    SessionManager { config: self.config, phase: AuthPhase::Persisting(session) },
                    AuthAction::WriteSessionFile { path, contents },
                )
            },
            None => self.succeed(
                AuthenticatedSession {
                    session,
                    origin: SessionOrigin::LoggedIn,
                    persistence: Persistence::Failed(PersistError::Render),
                },
            ),
        }
    }

    /// Takes the session the client holds after a successful login call and
    /// says what is next. A password session is rendered and sent to disk;
    /// any other outcome is a failure.
    pub fn after_login(self, current: Option<CurrentSession>) -> (next: (
        SessionManager,
        AuthAction,
    ))
        ensures
            (next.0@, next.1@) == self@.after_login(current_view(current)),
    {
        match current {
            Some(CurrentSession::Password(session)) => {
                let rendered = render_session(&session);
                self.after_render(session, rendered)
            },
            Some(CurrentSession::Other) => self.fail(AuthError::UnsupportedSessionKind),
            None => self.fail(AuthError::NoSession),
        }
    }

    /// Takes the runtime's report and says what is next.
    pub fn advance(self, event: AuthEvent) -> (next: (SessionManager, AuthAction))
        ensures
            (next.0@, next.1@) == self@.transition(event@),
    {
        let SessionManager { config, phase } = self;
        match (phase, event) {
            (AuthPhase::Start, AuthEvent::Started) => {
                let path = config.session_path().clone();
                (
                    SessionManager { config, phase: AuthPhase::ReadingSessionFile },
                    AuthAction::ReadSessionFile { path },
                )
            },
            (AuthPhase::ReadingSessionFile, AuthEvent::SessionFileMissing) => {
                SessionManager { config, phase: AuthPhase::ReadingSessionFile }.fall_back_to_login(
                    LoginReason::NoSessionFile,
                )
            },
            (AuthPhase::ReadingSessionFile, AuthEvent::SessionFileUnreadable) => {
                SessionManager { config, phase: AuthPhase::ReadingSessionFile }.fall_back_to_login(
                    LoginReason::SessionFileUnreadable,
                )
            },
            (AuthPhase::ReadingSessionFile, AuthEvent::SessionFileRead(bytes)) => {
                let parsed = parse_session(bytes.as_slice());
                SessionManager { config, phase: AuthPhase::ReadingSessionFile }.after_parse(parsed)
            },
            (AuthPhase::Restoring(session), AuthEvent::RestoreAccepted) => {
                SessionManager { config, phase: AuthPhase::Authenticated }.succeed(
                    AuthenticatedSession {
                        session,
                        origin: SessionOrigin::Restored,
                        persistence: Persistence::Stored,
                    },
                )
            },
            (AuthPhase::Restoring(session), AuthEvent::RestoreRejected) => {
                SessionManager { config, phase: AuthPhase::Restoring(session) }.fall_back_to_login(
                    LoginReason::SessionRejected,
                )
            },
            (AuthPhase::LoggingIn, AuthEvent::LoginFailed) => {
                SessionManager { config, phase: AuthPhase::LoggingIn }.fail(AuthError::LoginFailed)
            },
            (AuthPhase::LoggingIn, AuthEvent::LoggedIn(current)) => {
                SessionManager { config, phase: AuthPhase::LoggingIn }.after_login(current)
            },
            (AuthPhase::Persisting(session), AuthEvent::SessionFileWritten) => {
                SessionManager { config, phase: AuthPhase::Authenticated }.succeed(
                    AuthenticatedSession {
                        session,
                        origin: SessionOrigin::LoggedIn,
                        persistence: Persistence::Stored,
                    },
                )
            },
            (AuthPhase::Persisting(session), AuthEvent::SessionFileNotWritten) => {
                SessionManager { config, phase: AuthPhase::Authenticated }.succeed(
                    AuthenticatedSession {
                        session,
                        origin: SessionOrigin::LoggedIn,
                        persistence: Persistence::Failed(PersistError::Write),
                    },
                )
            },
            (phase, _) => (SessionManager { config, phase }, AuthAction::Ignored),
        }
    }
}

} // verus!
