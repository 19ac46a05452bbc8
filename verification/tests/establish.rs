use matrix_client::auth::{
    AuthAction, AuthError, AuthEvent, AuthState, AuthenticatedSession, CurrentSession, LoginReason,
    PersistError, Persistence, SessionManager, SessionOrigin, DEVICE_DISPLAY_NAME,
};
use matrix_client::config::Config;
use matrix_client::session::{parse_session, render_session, SessionRecord};

const SESSION_PATH: &str = "/var/lib/client/session.yaml";

fn config() -> Config {
    Config::new(
        String::from("alice"),
        String::from("secret"),
        String::from("/var/lib/client/store"),
        String::from(SESSION_PATH),
        String::from("https://matrix.example.org"),
    )
}

fn record(token: &str) -> SessionRecord {
    SessionRecord {
        access_token: String::from(token),
        device_id: String::from("DEVICEID01"),
        user_id: String::from("@alice:example.org"),
        refresh_token: None,
    }
}

/// A disk with one file and a server, which count what they are asked.
struct World {
    file: Option<Vec<u8>>,
    readable: bool,
    writable: bool,
    accepts_restore: bool,
    login: Option<Option<CurrentSession>>,
    reads: usize,
    restores: usize,
    logins: usize,
    writes: usize,
    credentials: Vec<(String, String, String)>,
}

impl World {
    fn new(file: Option<&[u8]>) -> World {
        World {
            file: file.map(|bytes| bytes.to_vec()),
            readable: true,
            writable: true,
            accepts_restore: true,
            login: Some(Some(CurrentSession::Password(record("token-from-login")))),
            reads: 0,
            restores: 0,
            logins: 0,
            writes: 0,
            credentials: Vec::new(),
        }
    }

    fn perform(&mut self, action: AuthAction) -> Result<AuthEvent, Result<AuthenticatedSession, AuthError>> {
        match action {
            AuthAction::ReadSessionFile { path } => {
                assert_eq!(path, SESSION_PATH);
                self.reads += 1;
                Ok(match &self.file {
                    None => AuthEvent::SessionFileMissing,
                    Some(_) if !self.readable => AuthEvent::SessionFileUnreadable,
                    Some(bytes) => AuthEvent::SessionFileRead(bytes.clone()),
                })
            }
            AuthAction::RestoreSession { .. } => {
                self.restores += 1;
                Ok(if self.accepts_restore { AuthEvent::RestoreAccepted } else { AuthEvent::RestoreRejected })
            }
            AuthAction::Login { username, password, device_name, .. } => {
                self.logins += 1;
                self.credentials.push((username, password, device_name));
                Ok(match self.login.clone() {
                    None => AuthEvent::LoginFailed,
                    Some(current) => AuthEvent::LoggedIn(current),
                })
            }
            AuthAction::WriteSessionFile { path, contents } => {
                assert_eq!(path, SESSION_PATH);
                self.writes += 1;
                Ok(if self.writable {
                    self.file = Some(contents);
                    AuthEvent::SessionFileWritten
                } else {
                    AuthEvent::SessionFileNotWritten
                })
            }
            AuthAction::Finish { verdict } => Err(verdict),
            AuthAction::Ignored => panic!("the manager passed over a report of the world"),
        }
    }

    fn establish(&mut self) -> (Result<AuthenticatedSession, AuthError>, AuthState) {
        let (mut manager, mut action) = SessionManager::new(config()).advance(AuthEvent::Started);
        loop {
            match self.perform(action) {
                Ok(event) => (manager, action) = manager.advance(event),
                Err(verdict) => return (verdict, manager.state()),
            }
        }
    }
}

fn stored(token: &str) -> Vec<u8> {
    render_session(&record(token)).unwrap()
}

#[test]
fn valid_session_file_is_restored_and_no_login_is_made() {
    for token in ["t", "syt_c29tZSB0b2tlbg", "token with spaces: and colons"] {
        let file = stored(token);
        let mut world = World::new(Some(&file));
        let (verdict, state) = world.establish();
        assert_eq!(
            verdict,
            Ok(AuthenticatedSession {
                session: record(token),
                origin: SessionOrigin::Restored,
                persistence: Persistence::Stored,
            })
        );
        assert_eq!(state, AuthState::Authenticated);
        assert_eq!((world.reads, world.restores, world.logins, world.writes), (1, 1, 0, 0));
        assert_eq!(world.file, Some(file));
    }
}

#[test]
fn missing_session_file_leads_to_exactly_one_login() {
    let mut world = World::new(None);
    let (verdict, state) = world.establish();
    assert_eq!(state, AuthState::Authenticated);
    assert_eq!(verdict.unwrap().origin, SessionOrigin::LoggedIn);
    assert_eq!((world.reads, world.restores, world.logins, world.writes), (1, 0, 1, 1));
}

#[test]
fn missing_session_file_and_failing_login_is_one_attempt() {
    let mut world = World::new(None);
    world.login = None;
    let (verdict, state) = world.establish();
    assert_eq!(verdict, Err(AuthError::LoginFailed));
    assert_eq!(state, AuthState::Failed);
    assert_eq!((world.restores, world.logins, world.writes), (0, 1, 0));
    assert_eq!(world.file, None);
}

#[test]
fn corrupt_session_file_leads_to_one_login_and_stays_as_it_is() {
    let corrupt: &[u8] = b"access_token: [not closed";
    let mut world = World::new(Some(corrupt));
    world.login = None;
    let (verdict, _) = world.establish();
    assert_eq!(verdict, Err(AuthError::LoginFailed));
    assert_eq!((world.reads, world.restores, world.logins, world.writes), (1, 0, 1, 0));
    assert_eq!(world.file.as_deref(), Some(corrupt));
}

#[test]
fn corrupt_session_file_is_untouched_until_login_has_succeeded() {
    let corrupt: &[u8] = b"\xff\xfe not even text";
    let (manager, read) = SessionManager::new(config()).advance(AuthEvent::Started);
    assert_eq!(read, AuthAction::ReadSessionFile { path: String::from(SESSION_PATH) });
    let (manager, login) = manager.advance(AuthEvent::SessionFileRead(corrupt.to_vec()));
    assert_eq!(
        login,
        AuthAction::Login {
            username: String::from("alice"),
            password: String::from("secret"),
            device_name: String::from("collin-matrix-client"),
            reason: LoginReason::SessionFileCorrupt,
        }
    );
    assert_eq!(manager.state(), AuthState::LoginAttempted);
}

#[test]
fn session_file_without_a_session_counts_as_corrupt() {
    for file in [&b""[..], b"[]", b"user_id: \"@alice:example.org\"\n", b"42"] {
        let mut world = World::new(Some(file));
        let (verdict, _) = world.establish();
        assert_eq!(verdict.unwrap().origin, SessionOrigin::LoggedIn);
        assert_eq!((world.restores, world.logins), (0, 1));
    }
}

#[test]
fn unreadable_session_file_leads_to_one_login() {
    let file = stored("old");
    let mut world = World::new(Some(&file));
    world.readable = false;
    world.login = Some(None);
    let (verdict, state) = world.establish();
    assert_eq!(verdict, Err(AuthError::NoSession));
    assert_eq!(state, AuthState::Failed);
    assert_eq!((world.restores, world.logins, world.writes), (0, 1, 0));
    assert_eq!(world.file, Some(file));
}

#[test]
fn rejected_session_leads_to_one_login_and_is_replaced() {
    let file = stored("revoked");
    let mut world = World::new(Some(&file));
    world.accepts_restore = false;
    let (verdict, _) = world.establish();
    assert_eq!(
        verdict,
        Ok(AuthenticatedSession {
            session: record("token-from-login"),
            origin: SessionOrigin::LoggedIn,
            persistence: Persistence::Stored,
        })
    );
    assert_eq!((world.reads, world.restores, world.logins, world.writes), (1, 1, 1, 1));
    assert_eq!(world.file, Some(stored("token-from-login")));
}

#[test]
fn rejected_session_gives_its_reason_to_login() {
    let (manager, _) = SessionManager::new(config()).advance(AuthEvent::Started);
    let (manager, restore) = manager.advance(AuthEvent::SessionFileRead(stored("revoked")));
    assert_eq!(restore, AuthAction::RestoreSession { session: record("revoked") });
    assert_eq!(manager.state(), AuthState::RestoreAttempted);
    let (_, login) = manager.advance(AuthEvent::RestoreRejected);
    assert!(matches!(login, AuthAction::Login { reason: LoginReason::SessionRejected, .. }));
}

#[test]
fn stored_session_is_restored_by_the_next_run_without_login() {
    let mut world = World::new(None);
    let (first, _) = world.establish();
    assert_eq!(first.unwrap().persistence, Persistence::Stored);
    assert_eq!(world.logins, 1);
    let (second, state) = world.establish();
    assert_eq!(
        second,
        Ok(AuthenticatedSession {
            session: record("token-from-login"),
            origin: SessionOrigin::Restored,
            persistence: Persistence::Stored,
        })
    );
    assert_eq!(state, AuthState::Authenticated);
    assert_eq!((world.logins, world.restores, world.writes), (1, 1, 1));
}

#[test]
fn login_as_alice_stores_a_session_with_the_same_access_token() {
    let mut world = World::new(None);
    world.login = Some(Some(CurrentSession::Password(record("alices-access-token"))));
    let (verdict, _) = world.establish();
    assert_eq!(
        world.credentials,
        vec![(String::from("alice"), String::from("secret"), String::from(DEVICE_DISPLAY_NAME))]
    );
    assert_eq!(verdict.unwrap().session.access_token, "alices-access-token");
    let on_disk = parse_session(&world.file.unwrap()).unwrap();
    assert_eq!(on_disk.access_token, "alices-access-token");
    assert_eq!(on_disk, record("alices-access-token"));
}

#[test]
fn session_of_another_kind_is_refused() {
    let mut world = World::new(None);
    world.login = Some(Some(CurrentSession::Other));
    let (verdict, state) = world.establish();
    assert_eq!(verdict, Err(AuthError::UnsupportedSessionKind));
    assert_eq!(state, AuthState::Failed);
    assert_eq!((world.logins, world.writes), (1, 0));
    assert_eq!(world.file, None);
}

#[test]
fn login_without_a_session_fails() {
    let mut world = World::new(None);
    world.login = Some(None);
    let (verdict, _) = world.establish();
    assert_eq!(verdict, Err(AuthError::NoSession));
    assert_eq!(world.logins, 1);
}

#[test]
fn session_that_cannot_be_written_is_valid_for_this_run() {
    let mut world = World::new(None);
    world.writable = false;
    let (verdict, state) = world.establish();
    assert_eq!(
        verdict,
        Ok(AuthenticatedSession {
            session: record("token-from-login"),
            origin: SessionOrigin::LoggedIn,
            persistence: Persistence::Failed(PersistError::Write),
        })
    );
    assert_eq!(state, AuthState::Authenticated);
    assert_eq!((world.logins, world.writes), (1, 1));
    assert_eq!(world.file, None);
}

#[test]
fn session_that_cannot_be_rendered_is_valid_for_this_run() {
    let odd = SessionRecord { user_id: String::from("no user id"), ..record("t") };
    let mut world = World::new(None);
    world.login = Some(Some(CurrentSession::Password(odd.clone())));
    let (verdict, state) = world.establish();
    assert_eq!(
        verdict,
        Ok(AuthenticatedSession {
            session: odd,
            origin: SessionOrigin::LoggedIn,
            persistence: Persistence::Failed(PersistError::Render),
        })
    );
    assert_eq!(state, AuthState::Authenticated);
    assert_eq!(world.writes, 0);
}

#[test]
fn write_request_carries_the_rendered_session() {
    let (manager, _) = SessionManager::new(config()).advance(AuthEvent::Started);
    let (manager, _) = manager.advance(AuthEvent::SessionFileMissing);
    let (manager, write) =
        manager.advance(AuthEvent::LoggedIn(Some(CurrentSession::Password(record("fresh")))));
    assert_eq!(
        write,
        AuthAction::WriteSessionFile { path: String::from(SESSION_PATH), contents: stored("fresh") }
    );
    assert_eq!(manager.state(), AuthState::LoginAttempted);
}

#[test]
fn manager_starts_in_start_and_asks_for_the_session_file() {
    let manager = SessionManager::new(config());
    assert_eq!(manager.state(), AuthState::Start);
    assert_eq!(manager.config().username(), "alice");
    let (manager, action) = manager.advance(AuthEvent::Started);
    assert_eq!(action, AuthAction::ReadSessionFile { path: String::from(SESSION_PATH) });
    assert_eq!(manager.state(), AuthState::RestoreAttempted);
}

#[test]
fn reports_that_answer_nothing_are_passed_over() {
    let (manager, action) = SessionManager::new(config()).advance(AuthEvent::LoginFailed);
    assert_eq!(action, AuthAction::Ignored);
    assert_eq!(manager.state(), AuthState::Start);
    let (manager, _) = manager.advance(AuthEvent::Started);
    let (manager, action) = manager.advance(AuthEvent::RestoreAccepted);
    assert_eq!(action, AuthAction::Ignored);
    assert_eq!(manager.state(), AuthState::RestoreAttempted);
    let (manager, action) = manager.advance(AuthEvent::Started);
    assert_eq!(action, AuthAction::Ignored);
    let (manager, _) = manager.advance(AuthEvent::SessionFileMissing);
    let (manager, action) = manager.advance(AuthEvent::SessionFileWritten);
    assert_eq!(action, AuthAction::Ignored);
    assert_eq!(manager.state(), AuthState::LoginAttempted);
    let (manager, verdict) = manager.advance(AuthEvent::LoginFailed);
    assert_eq!(verdict, AuthAction::Finish { verdict: Err(AuthError::LoginFailed) });
    let (manager, action) = manager.advance(AuthEvent::LoggedIn(None));
    assert_eq!(action, AuthAction::Ignored);
    assert_eq!(manager.state(), AuthState::Failed);
}

#[test]
fn no_second_login_after_a_failed_one() {
    let (manager, _) = SessionManager::new(config()).advance(AuthEvent::Started);
    let (manager, _) = manager.advance(AuthEvent::SessionFileMissing);
    let (mut manager, _) = manager.advance(AuthEvent::LoginFailed);
    for event in [
        AuthEvent::Started,
        AuthEvent::SessionFileMissing,
        AuthEvent::RestoreRejected,
        AuthEvent::LoginFailed,
        AuthEvent::SessionFileNotWritten,
    ] {
        let (next, action) = manager.advance(event);
        assert_eq!(action, AuthAction::Ignored);
        manager = next;
    }
    assert_eq!(manager.state(), AuthState::Failed);
}

#[test]
fn decisions_after_parsing_and_rendering_take_the_results_as_given() {
    let (manager, _) = SessionManager::new(config()).advance(AuthEvent::Started);
    let (manager, action) = manager.after_parse(None);
    assert!(matches!(action, AuthAction::Login { reason: LoginReason::SessionFileCorrupt, .. }));
    let (manager, action) = manager.after_render(record("r"), Some(vec![1, 2, 3]));
    assert_eq!(
        action,
        AuthAction::WriteSessionFile { path: String::from(SESSION_PATH), contents: vec![1, 2, 3] }
    );
    let (_, action) = manager.advance(AuthEvent::SessionFileWritten);
    assert_eq!(
        action,
        AuthAction::Finish {
            verdict: Ok(AuthenticatedSession {
                session: record("r"),
                origin: SessionOrigin::LoggedIn,
                persistence: Persistence::Stored,
            })
        }
    );
    let (manager, _) = SessionManager::new(config()).advance(AuthEvent::Started);
    let (manager, action) = manager.after_parse(Some(record("p")));
    assert_eq!(action, AuthAction::RestoreSession { session: record("p") });
    let (_, action) = manager.after_login(Some(CurrentSession::Other));
    assert_eq!(action, AuthAction::Finish { verdict: Err(AuthError::UnsupportedSessionKind) });
}
