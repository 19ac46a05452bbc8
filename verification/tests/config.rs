use matrix_client::config::Config;

#[test]
fn config_keeps_what_it_was_made_of() {
    let config = Config::new(
        String::from("alice"),
        String::from("secret"),
        String::from("/data/store"),
        String::from("/data/session.yaml"),
        String::from("https://matrix.example.org"),
    );
    assert_eq!(config.username(), "alice");
    assert_eq!(config.password(), "secret");
    assert_eq!(config.db_path(), "/data/store");
    assert_eq!(config.session_path(), "/data/session.yaml");
    assert_eq!(config.homeserver_url(), "https://matrix.example.org");
    let copy = config.clone();
    assert_eq!(copy.username(), "alice");
    assert_eq!(copy.session_path(), "/data/session.yaml");
}
