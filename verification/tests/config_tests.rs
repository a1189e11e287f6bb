use eroteme::config::Config;
use eroteme::error::Error;
use eroteme::num::IntParseError;

fn base() -> Config {
    Config {
        log_level: "warn".to_string(),
        port: 8080,
        db_user: "postgres".to_string(),
        db_password: "password".to_string(),
        db_host: "localhost".to_string(),
        db_port: 5432,
        db_name: "eroteme".to_string(),
    }
}

#[test]
fn environment_values_override_the_defaults() {
    let resolved = base()
        .with_env_overrides(
            None,
            Some("user".to_string()),
            Some("pass".to_string()),
            Some("localhost".to_string()),
            Some("5432".to_string()),
            Some("eroteme".to_string()),
        )
        .unwrap();
    let expected = Config {
        log_level: "warn".to_string(),
        port: 8080,
        db_user: "user".to_string(),
        db_password: "pass".to_string(),
        db_host: "localhost".to_string(),
        db_port: 5432,
        db_name: "eroteme".to_string(),
    };
    assert_eq!(resolved, expected);
}

#[test]
fn absent_environment_keeps_every_default() {
    let resolved = base().with_env_overrides(None, None, None, None, None, None).unwrap();
    assert_eq!(resolved, base());
}

#[test]
fn an_unparsable_port_refuses_the_configuration() {
    let r = base().with_env_overrides(Some("eighty".to_string()), None, None, None, None, None);
    assert_eq!(r, Err(Error::ParseError(IntParseError::InvalidDigit)));
    let r = base().with_env_overrides(None, None, None, None, Some("70000".to_string()), None);
    assert_eq!(r, Err(Error::ParseError(IntParseError::PosOverflow)));
}

#[test]
fn the_listening_port_is_checked_first() {
    let r = base().with_env_overrides(
        Some("bad".to_string()),
        None,
        None,
        None,
        Some("70000".to_string()),
        None,
    );
    assert_eq!(r, Err(Error::ParseError(IntParseError::InvalidDigit)));
}
