//! Whole runs of the session manager against a disk and a server.
//!
//! A [`World`] answers each request of the manager as a disk and a server
//! would, and counts the calls it receives. [`establish`] lets the manager
//! run in a world until it gives its verdict. What holds of every such run
//! is stated and proved here.

use crate::auth::{
    AuthActionView, AuthError, AuthEventView, AuthState, AuthenticatedSessionView,
    CurrentSessionView, ManagerView, PersistError, Persistence, SessionOrigin,
    DEVICE_DISPLAY_NAME,
};
use crate::config::ConfigView;
use crate::session::{session_yaml, yaml_session, SessionRecordView};
use vstd::prelude::*;

verus! {

/// What is found at a path when it is read.
pub enum SessionFile {
    /// Nothing is there.
    Missing,
    /// A file is there and cannot be read.
    Unreadable,
    /// A file with these bytes.
    Contents(Seq<u8>),
}

/// What the server answers to a login call.
pub enum LoginReply {
    /// The call fails.
    Refused,
    /// The call succeeds, and the client then holds this session.
    Granted(Option<CurrentSessionView>),
}

/// A disk and a server, as far as the session manager meets them.
pub struct World {
    /// The files on disk, by path. A path without an entry has no file.
    pub disk: Map<Seq<char>, SessionFile>,
    /// The sessions that the server accepts when they are restored.
    pub accepted: Set<SessionRecordView>,
    /// What the server answers to a login call.
    pub login: LoginReply,
    /// Whether files can be written.
    pub writable: bool,
    /// How many restore calls the server has received.
    pub restore_calls: nat,
    /// How many login calls the server has received.
    pub login_calls: nat,
}

impl World {
    /// What is found at `path`.
    pub open spec fn file_at(self, path: Seq<char>) -> SessionFile {
        if self.disk.dom().contains(path) {
            self.disk[path]
        } else {
            SessionFile::Missing
        }
    }

    /// What the world reports when `action` is performed in it.
    pub open spec fn answer(self, action: AuthActionView) -> AuthEventView {
        match action {
            AuthActionView::ReadSessionFile { path } => match self.file_at(path) {
                SessionFile::Missing => AuthEventView::SessionFileMissing,
                SessionFile::Unreadable => AuthEventView::SessionFileUnreadable,
                SessionFile::Contents(bytes) => AuthEventView::SessionFileRead(bytes),
            },
            AuthActionView::RestoreSession { session } => if self.accepted.contains(session) {
                AuthEventView::RestoreAccepted
            } else {
                AuthEventView::RestoreRejected
            },
            AuthActionView::Login { .. } => match self.login {
                LoginReply::Refused => AuthEventView::LoginFailed,
                LoginReply::Granted(current) => AuthEventView::LoggedIn(current),
            },
            AuthActionView::WriteSessionFile { .. } => if self.writable {
                AuthEventView::SessionFileWritten
            } else {
                AuthEventView::SessionFileNotWritten
            },
            AuthActionView::Finish { .. } => AuthEventView::Started,
            AuthActionView::Ignored => AuthEventView::Started,
        }
    }

    /// The world after `action` was performed in it: calls are counted, and
    /// a write that succeeds replaces the file.
    pub open spec fn after(self, action: AuthActionView) -> World {
        match action {
            AuthActionView::RestoreSession { .. } => World {
                restore_calls: self.restore_calls + 1,
                ..self
            },
            AuthActionView::Login { .. } => World { login_calls: self.login_calls + 1, ..self },
            AuthActionView::WriteSessionFile { path, contents } => if self.writable {
                World { disk: self.disk.insert(path, SessionFile::Contents(contents)), ..self }
            } else {
                self
            },
            _ => self,
        }
    }
}

/// A run of the manager: what it asked for, in order, and what it left.
pub struct Run {
    /// The requests of the manager, the verdict being the last.
    pub actions: Seq<AuthActionView>,
    /// The manager after the run.
    pub manager: ManagerView,
    /// The world after the run.
    pub world: World,
}

impl Run {
    /// The verdict of the run, where it reached one.
    pub open spec fn verdict(self) -> Option<Result<AuthenticatedSessionView, AuthError>> {
        if self.actions.len() > 0 {
            match self.actions.last() {
                AuthActionView::Finish { verdict } => Some(verdict),
                _ => None,
            }
        } else {
            None
        }
    }
}

/// How many actions a run can take before it ends. They are to read, to
/// restore, to log in and to write.
pub open spec fn max_requests() -> nat {
    4
}

/// The run that starts with `action` outstanding: the world performs it and
/// the manager answers, up to `budget` times or until the manager asks for
/// nothing more.
pub open spec fn drive(manager: ManagerView, action: AuthActionView, world: World, budget: nat) -> Run
    decreases budget,
{
    if budget == 0 || action is Finish || action is Ignored {
        Run { actions: seq![action], manager, world }
    } else {
        let (next_manager, next_action) = manager.transition(world.answer(action));
        let rest = drive(next_manager, next_action, world.after(action), (budget - 1) as nat);
        Run { actions: seq![action] + rest.actions, manager: rest.manager, world: rest.world }
    }
}

/// The run of a fresh manager for `config` in `world`.
pub open spec fn establish(config: ConfigView, world: World) -> Run {
    let (manager, action) = ManagerView::initial(config).transition(AuthEventView::Started);
    drive(manager, action, world, max_requests())
}

/// The session file of `config` holds a session that the server of `world`
/// accepts.
pub open spec fn has_valid_session_file(config: ConfigView, world: World) -> bool {
    &&& world.file_at(config.session_path) matches SessionFile::Contents(bytes)
    &&& yaml_session(bytes) matches Some(session)
    &&& world.accepted.contains(session)
}

/// The session that login gives in `world`, where it gives a password
/// session.
pub open spec fn granted_session(world: World) -> Option<SessionRecordView> {
    match world.login {
        LoginReply::Granted(Some(CurrentSessionView::Password(session))) => Some(session),
        _ => None,
    }
}

/// The login request of the manager for `config`.
pub open spec fn is_login_of(action: AuthActionView, config: ConfigView) -> bool {
    &&& action matches AuthActionView::Login { username, password, device_name, .. }
    &&& username == config.username
    &&& password == config.password
    &&& device_name == DEVICE_DISPLAY_NAME@
}

/// Every run ends with a verdict, after at most four requests, and the
/// manager is then in the state that the verdict names.
pub proof fn every_run_reaches_a_verdict(config: ConfigView, world: World)
    ensures
        establish(config, world).verdict() is Some,
        establish(config, world).actions.len() <= max_requests() + 1,
        establish(config, world).verdict() matches Some(Ok(_)) ==> establish(
            config,
            world,
        ).manager.phase.state() == AuthState::Authenticated,
        establish(config, world).verdict() matches Some(Err(_)) ==> establish(
            config,
            world,
        ).manager.phase.state() == AuthState::Failed,
{
    reveal_with_fuel(drive, 5);
}

/// Restore and login are each attempted at most once in a run, and login is
/// attempted exactly when the session was not restored.
pub proof fn restore_and_login_exclude_each_other(config: ConfigView, world: World)
    ensures
        establish(config, world).world.restore_calls <= world.restore_calls + 1,
        establish(config, world).world.login_calls <= world.login_calls + 1,
        has_valid_session_file(config, world) <==> establish(config, world).world.login_calls
            == world.login_calls,
        establish(config, world).verdict() matches Some(Ok(session)) ==> (session.origin
            == SessionOrigin::Restored <==> has_valid_session_file(config, world)),
{
    reveal_with_fuel(drive, 5);
}

/// Where the session file holds a session that the server accepts, the
/// session is restored: the verdict is that session, the server receives
/// one restore call and no login call, and the disk is left as it was.
pub proof fn valid_session_file_is_restored_without_login(
    config: ConfigView,
    world: World,
    bytes: Seq<u8>,
    session: SessionRecordView,
)
    requires
        world.file_at(config.session_path) == SessionFile::Contents(bytes),
        yaml_session(bytes) == Some(session),
        world.accepted.contains(session),
    ensures
        establish(config, world).actions == seq![
            AuthActionView::ReadSessionFile { path: config.session_path },
            AuthActionView::RestoreSession { session },
            AuthActionView::Finish {
                verdict: Ok(
                    AuthenticatedSessionView {
                        session,
                        origin: SessionOrigin::Restored,
                        persistence: Persistence::Stored,
                    },
                ),
            },
        ],
        establish(config, world).world.login_calls == world.login_calls,
        establish(config, world).world.restore_calls == world.restore_calls + 1,
        establish(config, world).world.disk == world.disk,
{
    reveal_with_fuel(drive, 5);
}

/// Where there is no session file, login is attempted exactly once, with
/// the configured credentials, and nothing is restored.
pub proof fn missing_session_file_leads_to_one_login(config: ConfigView, world: World)
    requires
        world.file_at(config.session_path) is Missing,
    ensures
        establish(config, world).world.login_calls == world.login_calls + 1,
        establish(config, world).world.restore_calls == world.restore_calls,
        establish(config, world).actions.len() >= 2,
        establish(config, world).actions[0] == (AuthActionView::ReadSessionFile {
            path: config.session_path,
        }),
        is_login_of(establish(config, world).actions[1], config),
{
    reveal_with_fuel(drive, 5);
}

/// Where the session file cannot be read, holds no session, or holds one
/// that the server refuses, login is attempted exactly once. The file is
/// not touched by the attempt to restore it: the disk changes only where
/// login gave a password session that was then written, and then only at
/// the configured path.
pub proof fn unusable_session_file_leads_to_one_login(config: ConfigView, world: World)
    requires
        !(world.file_at(config.session_path) is Missing),
        !has_valid_session_file(config, world),
    ensures
        establish(config, world).world.login_calls == world.login_calls + 1,
        establish(config, world).world.restore_calls <= world.restore_calls + 1,
        (granted_session(world) matches Some(session) && session_yaml(session) is Some
            && world.writable) || establish(config, world).world.disk == world.disk,
        forall|path: Seq<char>|
            path != config.session_path ==> establish(config, world).world.file_at(path)
                == world.file_at(path),
{
    reveal_with_fuel(drive, 5);
    let after = establish(config, world).world;
    assert forall|path: Seq<char>| path != config.session_path implies after.file_at(path)
        == world.file_at(path) by {}
}

/// Where login gives a password session, the run ends authenticated with
/// that session, and the session file then holds its written form, if it
/// has one and the disk can be written; the verdict says whether it does.
pub proof fn login_stores_the_session(config: ConfigView, world: World, session: SessionRecordView)
    requires
        !has_valid_session_file(config, world),
        granted_session(world) == Some(session),
    ensures
        establish(config, world).verdict() == Some(
            Ok::<AuthenticatedSessionView, AuthError>(
                AuthenticatedSessionView {
                    session,
                    origin: SessionOrigin::LoggedIn,
                    persistence: match session_yaml(session) {
                        Some(_) => if world.writable {
                            Persistence::Stored
                        } else {
                            Persistence::Failed(PersistError::Write)
                        },
                        None => Persistence::Failed(PersistError::Render),
                    },
                },
            ),
        ),
        session_yaml(session) matches Some(contents) ==> (world.writable ==> establish(
            config,
            world,
        ).world.file_at(config.session_path) == SessionFile::Contents(contents)),
{
    reveal_with_fuel(drive, 5);
}

/// Where login does not give a password session, the run fails, with the
/// error that says why, and the disk is left as it was.
pub proof fn failed_login_is_final(config: ConfigView, world: World)
    requires
        !has_valid_session_file(config, world),
        granted_session(world) is None,
    ensures
        establish(config, world).verdict() == Some(
            Err::<AuthenticatedSessionView, AuthError>(
                match world.login {
                    LoginReply::Refused => AuthError::LoginFailed,
                    LoginReply::Granted(None) => AuthError::NoSession,
                    LoginReply::Granted(Some(_)) => AuthError::UnsupportedSessionKind,
                },
            ),
        ),
        establish(config, world).world.login_calls == world.login_calls + 1,
        establish(config, world).world.disk == world.disk,
{
    reveal_with_fuel(drive, 5);
}

/// A session that login stored is restored by the next run, without another
/// login call: provided that its written form reads back as the session,
/// and that the server accepts it.
pub proof fn stored_session_is_restored_by_the_next_run(
    config: ConfigView,
    world: World,
    session: SessionRecordView,
    contents: Seq<u8>,
)
    requires
        !has_valid_session_file(config, world),
        granted_session(world) == Some(session),
        world.writable,
        session_yaml(session) == Some(contents),
        yaml_session(contents) == Some(session),
        world.accepted.contains(session),
    ensures
        ({
            let first = establish(config, world);
            let second = establish(config, first.world);
            &&& first.world.login_calls == world.login_calls + 1
            &&& second.world.login_calls == first.world.login_calls
            &&& second.verdict() == Some(
                Ok::<AuthenticatedSessionView, AuthError>(
                    AuthenticatedSessionView {
                        session,
                        origin: SessionOrigin::Restored,
                        persistence: Persistence::Stored,
                    },
                ),
            )
        }),
{
    login_stores_the_session(config, world, session);
    let first = establish(config, world);
    assert(first.world.accepted == world.accepted && first.world.login_calls == world.login_calls
        + 1) by {
        reveal_with_fuel(drive, 5);
    }
    valid_session_file_is_restored_without_login(config, first.world, contents, session);
    let second = establish(config, first.world);
    assert(second.actions.last() == second.actions[2]);
}

} // verus!
