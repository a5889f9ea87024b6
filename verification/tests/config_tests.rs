use capybara::config::{parse_number, read_config, Config, ConfigError};
use capybara::ids::GuildId;

fn some(s: &str) -> Option<String> {
    Some(s.to_string())
}

#[test]
fn parse_number_reads_digits() {
    assert_eq!(parse_number("0"), Some(0));
    assert_eq!(parse_number("7"), Some(7));
    assert_eq!(parse_number("007"), Some(7));
    assert_eq!(parse_number("1234567890"), Some(1234567890));
    assert_eq!(parse_number("18446744073709551615"), Some(u64::MAX));
}

#[test]
fn parse_number_takes_a_plus_sign() {
    assert_eq!(parse_number("+5"), Some(5));
    assert_eq!(parse_number("+"), None);
    assert_eq!(parse_number("++5"), None);
    assert_eq!(parse_number("5+"), None);
}

#[test]
fn parse_number_refuses_what_is_no_number() {
    assert_eq!(parse_number(""), None);
    assert_eq!(parse_number("-5"), None);
    assert_eq!(parse_number(" 5"), None);
    assert_eq!(parse_number("5 "), None);
    assert_eq!(parse_number("5a"), None);
    assert_eq!(parse_number("0x10"), None);
    assert_eq!(parse_number("１２"), None);
}

#[test]
fn parse_number_refuses_what_does_not_fit() {
    assert_eq!(parse_number("18446744073709551616"), None);
    assert_eq!(parse_number("99999999999999999999"), None);
    assert_eq!(parse_number("184467440737095516150"), None);
    assert_eq!(parse_number("00018446744073709551615"), Some(u64::MAX));
}

#[test]
fn parse_number_agrees_with_std() {
    let samples = [
        "", "+", "0", "+0", "-0", "42", "+42", "4 2", "18446744073709551615",
        "18446744073709551616", "000", "1e5", "٣",
    ];
    for s in samples {
        assert_eq!(parse_number(s), s.parse::<u64>().ok());
    }
}

#[test]
fn read_config_with_everything_set() {
    assert_eq!(
        read_config(true, some("SECRET-REDACTED"), some("1234"), some("99")),
        Ok(Config {
            token: "SECRET-REDACTED".to_string(),
            application_id: 1234,
            guild_id: Some(GuildId(99))
        })
    );
}

#[test]
fn read_config_without_a_guild_declares_everywhere() {
    let c = read_config(true, some("t"), some("1"), None).unwrap();
    assert_eq!(c.guild_id, None);
    let c = read_config(true, some("t"), some("1"), some("not a number")).unwrap();
    assert_eq!(c.guild_id, None);
    assert_eq!(c.application_id, 1);
    assert_eq!(c.token, "t");
}

#[test]
fn read_config_needs_the_settings_file() {
    assert_eq!(read_config(false, some("t"), some("1"), None), Err(ConfigError::EnvFile));
    assert_eq!(read_config(false, None, None, None), Err(ConfigError::EnvFile));
}

#[test]
fn read_config_needs_the_token() {
    assert_eq!(read_config(true, None, some("1"), None), Err(ConfigError::MissingToken));
    assert_eq!(read_config(true, None, None, None), Err(ConfigError::MissingToken));
}

#[test]
fn read_config_needs_a_numeric_application() {
    assert_eq!(read_config(true, some("t"), None, None), Err(ConfigError::MissingAppId));
    assert_eq!(read_config(true, some("t"), some("abc"), None), Err(ConfigError::InvalidAppId));
    assert_eq!(read_config(true, some("t"), some(""), some("5")), Err(ConfigError::InvalidAppId));
}
