//! The settings a client is started with.

use vstd::prelude::*;

verus! {

/// The settings of one client. They are read once, when the process starts,
/// and never change afterwards.
#[derive(Debug, Clone)]
pub struct Config {
    username: String,
    password: String,
    db_path: String,
    session_path: String,
    homeserver_url: String,
}

/// What a [`Config`] holds, as plain text.
pub struct ConfigView {
    pub username: Seq<char>,
    pub password: Seq<char>,
    pub db_path: Seq<char>,
    pub session_path: Seq<char>,
    pub homeserver_url: Seq<char>,
}

impl View for Config {
    type V = ConfigView;

    closed spec fn view(&self) -> ConfigView {
        ConfigView {
            username: self.username@,
            password: self.password@,
            db_path: self.db_path@,
            session_path: self.session_path@,
            homeserver_url: self.homeserver_url@,
        }
    }
}

impl Config {
    /// The settings made of the five given values.
    pub fn new(
        username: String,
        password: String,
        db_path: String,
        session_path: String,
        homeserver_url: String,
    ) -> (config: Config)
        ensures
            config@ == (ConfigView {
                username: username@,
                password: password@,
                db_path: db_path@,
                session_path: session_path@,
                homeserver_url: homeserver_url@,
            }),
    {
        Config { username, password, db_path, session_path, homeserver_url }
    }

    /// The name of the account to log in to.
    pub fn username(&self) -> (value: &String)
        ensures
            value@ == self@.username,
    {
        &self.username
    }

    /// The password of the account.
    pub fn password(&self) -> (value: &String)
        ensures
            value@ == self@.password,
    {
        &self.password
    }

    /// Where the client keeps its local store.
    pub fn db_path(&self) -> (value: &String)
        ensures
            value@ == self@.db_path,
    {
        &self.db_path
    }

    /// Where the session of the last login is kept.
    pub fn session_path(&self) -> (value: &String)
        ensures
            value@ == self@.session_path,
    {
        &self.session_path
    }

    /// The address of the server.
    pub fn homeserver_url(&self) -> (value: &String)
        ensures
            value@ == self@.homeserver_url,
    {
        &self.homeserver_url
    }
}

} // verus!
