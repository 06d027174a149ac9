use cfddns::config::{load_settings, select_credentials, Credentials, RawSettings, Settings};
use cfddns::error::ErrorKind;

fn text(s: &str) -> Option<String> {
    Some(s.to_string())
}

fn raw_with_token() -> RawSettings {
    RawSettings {
        email: None,
        auth_key: None,
        auth_token: text("tok"),
        zone_id: text("zone"),
        record_id: text("rec"),
        record_name: text("home.example.com"),
        interval: None,
    }
}

#[test]
fn email_and_key_give_the_pair() {
    assert_eq!(
        select_credentials(text("me@example.com"), text("k"), None),
        Ok(Credentials::UserAuthKey { email: "me@example.com".to_string(), key: "k".to_string() })
    );
}

#[test]
fn token_alone_gives_the_token() {
    assert_eq!(
        select_credentials(None, None, text("tok")),
        Ok(Credentials::UserAuthToken { token: "tok".to_string() })
    );
}

#[test]
fn token_beside_the_pair_is_rejected() {
    assert_eq!(
        select_credentials(text("me@example.com"), text("k"), text("tok")),
        Err(ErrorKind::ConfigError)
    );
}

#[test]
fn token_beside_half_a_pair_is_rejected() {
    assert_eq!(select_credentials(text("me@example.com"), None, text("tok")), Err(ErrorKind::ConfigError));
    assert_eq!(select_credentials(None, text("k"), text("tok")), Err(ErrorKind::ConfigError));
}

#[test]
fn half_a_pair_is_rejected() {
    assert_eq!(select_credentials(text("me@example.com"), None, None), Err(ErrorKind::ConfigError));
    assert_eq!(select_credentials(None, text("k"), None), Err(ErrorKind::ConfigError));
}

#[test]
fn no_credentials_are_rejected() {
    assert_eq!(select_credentials(None, None, None), Err(ErrorKind::ConfigError));
}

#[test]
fn settings_load_with_token_and_default_interval() {
    assert_eq!(
        load_settings(raw_with_token()),
        Ok(Settings {
            credentials: Credentials::UserAuthToken { token: "tok".to_string() },
            zone_id: "zone".to_string(),
            record_id: "rec".to_string(),
            record_name: "home.example.com".to_string(),
            interval: 1800,
        })
    );
}

#[test]
fn settings_load_with_pair_and_given_interval() {
    let mut raw = raw_with_token();
    raw.auth_token = None;
    raw.email = text("me@example.com");
    raw.auth_key = text("k");
    raw.interval = text("300");
    let settings = load_settings(raw).unwrap();
    assert_eq!(
        settings.credentials,
        Credentials::UserAuthKey { email: "me@example.com".to_string(), key: "k".to_string() }
    );
    assert_eq!(settings.interval, 300);
}

#[test]
fn settings_take_zero_and_fall_back_on_a_typo() {
    let mut raw = raw_with_token();
    raw.interval = text("0");
    assert_eq!(load_settings(raw).unwrap().interval, 0);
    let mut raw = raw_with_token();
    raw.interval = text("thirty");
    assert_eq!(load_settings(raw).unwrap().interval, 1800);
}

#[test]
fn settings_with_token_and_pair_fail() {
    let mut raw = raw_with_token();
    raw.email = text("me@example.com");
    raw.auth_key = text("k");
    assert_eq!(load_settings(raw), Err(ErrorKind::ConfigError));
}

#[test]
fn settings_without_an_identifier_fail() {
    let mut raw = raw_with_token();
    raw.zone_id = None;
    assert_eq!(load_settings(raw), Err(ErrorKind::ConfigError));
    let mut raw = raw_with_token();
    raw.record_id = None;
    assert_eq!(load_settings(raw), Err(ErrorKind::ConfigError));
    let mut raw = raw_with_token();
    raw.record_name = None;
    assert_eq!(load_settings(raw), Err(ErrorKind::ConfigError));
}
