//! The record of one authenticated device, and its form on disk.
//!
//! The session file is YAML. Reading and writing YAML is left to `serde_yaml`,
//! on the session type of `matrix_sdk`; this module gives the two conversions
//! a name each and hands records in and out as plain text.

use matrix_sdk::matrix_auth::{MatrixSession, MatrixSessionTokens};
use matrix_sdk::ruma::OwnedUserId;
use matrix_sdk::SessionMeta;
use vstd::prelude::*;

verus! {

/// What proves one device's authentication: the token and the identifiers
/// that go with it.
#[derive(Debug, Clone, PartialEq, Eq)]
pub struct SessionRecord {
    /// The token that authorises requests.
    pub access_token: String,
    /// The identifier of the device.
    pub device_id: String,
    /// The identifier of the user.
    pub user_id: String,
    /// The token with which the access token is renewed, where the server
    /// gave one.
    pub refresh_token: Option<String>,
}

/// What a [`SessionRecord`] holds, as plain text.
pub struct SessionRecordView {
    pub access_token: Seq<char>,
    pub device_id: Seq<char>,
    pub user_id: Seq<char>,
    pub refresh_token: Option<Seq<char>>,
}

impl View for SessionRecord {
    type V = SessionRecordView;

    open spec fn view(&self) -> SessionRecordView {
        SessionRecordView {
            access_token: self.access_token@,
            device_id: self.device_id@,
            user_id: self.user_id@,
            refresh_token: match self.refresh_token {
                Some(token) => Some(token@),
                None => None,
            },
        }
    }
}

impl SessionRecord {
    /// A copy of the record.
    pub fn duplicate(&self) -> (copy: SessionRecord)
        ensures
            copy@ == self@,
    {
        SessionRecord {
            access_token: self.access_token.clone(),
            device_id: self.device_id.clone(),
            user_id: self.user_id.clone(),
            refresh_token: match &self.refresh_token {
                Some(token) => Some(token.clone()),
                None => None,
            },
        }
    }
}

/// The plain text of an optional record.
pub open spec fn record_view(record: Option<SessionRecord>) -> Option<SessionRecordView> {
    match record {
        Some(record) => Some(record@),
        None => None,
    }
}

/// The bytes of an optional buffer.
pub open spec fn bytes_view(bytes: Option<Vec<u8>>) -> Option<Seq<u8>> {
    match bytes {
        Some(bytes) => Some(bytes@),
        None => None,
    }
}

/// The session that `serde_yaml` reads out of `bytes`, where it reads one.
pub uninterp spec fn yaml_session(bytes: Seq<u8>) -> Option<SessionRecordView>;

/// The YAML text that `serde_yaml` writes for `record`, where it writes one.
pub uninterp spec fn session_yaml(record: SessionRecordView) -> Option<Seq<u8>>;

#[verifier::external_type_specification]
#[verifier::external_body]
pub struct ExYamlError(serde_yaml::Error);

/// Reads a session out of YAML text with `serde_yaml::from_slice`, at the
/// type `matrix_sdk::matrix_auth::MatrixSession`, and copies its four fields.
///
/// Trusted: the result depends on the bytes alone, and [`yaml_session`] is
/// its name. Nothing more is claimed of it.
#[verifier::external_body]
fn session_from_yaml(bytes: &[u8]) -> (parsed: Result<SessionRecord, serde_yaml::Error>)
    ensures
        match parsed {
            Ok(record) => yaml_session(bytes@) == Some(record@),
            Err(_) => yaml_session(bytes@) is None,
        },
{
    let session: MatrixSession = serde_yaml::from_slice(bytes)?;
    Ok(
        SessionRecord {
            access_token: session.tokens.access_token,
            device_id: session.meta.device_id.into(),
            user_id: session.meta.user_id.into(),
            refresh_token: session.tokens.refresh_token,
        },
    )
}

/// Writes a session as YAML text with `serde_yaml::to_string`, at the type
/// `matrix_sdk::matrix_auth::MatrixSession`. The user identifier enters that
/// type through `OwnedUserId::try_from`, which refuses text that is no user
/// identifier.
///
/// Trusted: the result depends on the record alone, and [`session_yaml`] is
/// its name; it is `None` where either call fails. Nothing more is claimed
/// of it.
#[verifier::external_body]
fn session_to_yaml(record: &SessionRecord) -> (text: Option<Vec<u8>>)
    ensures
        bytes_view(text) == session_yaml(record@),
{
    let user_id = OwnedUserId::try_from(record.user_id.as_str()).ok()?;
    let session = MatrixSession {
        meta: SessionMeta { user_id, device_id: record.device_id.as_str().into() },
        tokens: MatrixSessionTokens {
            access_token: record.access_token.clone(),
            refresh_token: record.refresh_token.clone(),
        },
    };
    serde_yaml::to_string(&session).ok().map(String::into_bytes)
}

/// Reads the session that a session file holds.
///
/// The result is `None` exactly where the bytes are not the YAML of a
/// session.
pub fn parse_session(bytes: &[u8]) -> (parsed: Option<SessionRecord>)
    ensures
        record_view(parsed) == yaml_session(bytes@),
{
    match session_from_yaml(bytes) {
        Ok(record) => Some(record),
        Err(_) => None,
    }
}

/// The bytes to put in the session file for `record`.
///
/// The result is `None` exactly where the record has no YAML form.
pub fn render_session(record: &SessionRecord) -> (text: Option<Vec<u8>>)
    ensures
        bytes_view(text) == session_yaml(record@),
{
    session_to_yaml(record)
}

} // verus!
