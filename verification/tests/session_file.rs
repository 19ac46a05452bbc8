use matrix_client::session::{parse_session, render_session, SessionRecord};

fn alice() -> SessionRecord {
    SessionRecord {
        access_token: String::from("syt_YWxpY2U_token"),
        device_id: String::from("ABCDEFGHIJ"),
        user_id: String::from("@alice:example.org"),
        refresh_token: None,
    }
}

#[test]
fn session_yaml_is_read_into_its_fields() {
    let text = "user_id: \"@alice:example.org\"\ndevice_id: ABCDEFGHIJ\naccess_token: syt_YWxpY2U_token\n";
    assert_eq!(parse_session(text.as_bytes()), Some(alice()));
}

#[test]
fn refresh_token_is_read_where_present() {
    let text = "user_id: \"@alice:example.org\"\ndevice_id: ABCDEFGHIJ\naccess_token: at\nrefresh_token: rt\n";
    let record = parse_session(text.as_bytes()).unwrap();
    assert_eq!(record.access_token, "at");
    assert_eq!(record.refresh_token, Some(String::from("rt")));
}

#[test]
fn text_that_is_no_session_is_refused() {
    assert_eq!(parse_session(b"access_token: [unterminated"), None);
    assert_eq!(parse_session(b"just a scalar"), None);
    assert_eq!(parse_session(b""), None);
    assert_eq!(parse_session(b"user_id: \"@alice:example.org\"\ndevice_id: D\n"), None);
    assert_eq!(parse_session(b"user_id: not-a-user\ndevice_id: D\naccess_token: t\n"), None);
}

#[test]
fn rendered_session_names_its_fields() {
    let bytes = render_session(&alice()).unwrap();
    let text = String::from_utf8(bytes).unwrap();
    assert!(text.contains("user_id: '@alice:example.org'"));
    assert!(text.contains("device_id: ABCDEFGHIJ"));
    assert!(text.contains("access_token: syt_YWxpY2U_token"));
    assert!(!text.contains("refresh_token"));
}

#[test]
fn rendered_session_reads_back_as_the_same_record() {
    let with_refresh = SessionRecord { refresh_token: Some(String::from("renew: me")), ..alice() };
    for record in [alice(), with_refresh] {
        let bytes = render_session(&record).unwrap();
        assert_eq!(parse_session(&bytes), Some(record));
    }
}

#[test]
fn record_without_a_user_identifier_has_no_yaml_form() {
    let record = SessionRecord { user_id: String::from("alice"), ..alice() };
    assert_eq!(render_session(&record), None);
}
