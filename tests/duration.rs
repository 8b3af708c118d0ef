use timed_emitters::duration::parse_duration_to_ms;
use timed_emitters::error::ConfigError;

#[test]
fn seconds_unit() {
    assert_eq!(parse_duration_to_ms("2s"), Ok(2000));
}

#[test]
fn milliseconds_unit() {
    assert_eq!(parse_duration_to_ms("500ms"), Ok(500));
    assert_eq!(parse_duration_to_ms("200ms"), Ok(200));
}

#[test]
fn minutes_hours_days() {
    assert_eq!(parse_duration_to_ms("1m"), Ok(60_000));
    assert_eq!(parse_duration_to_ms("5m"), Ok(300_000));
    assert_eq!(parse_duration_to_ms("1h"), Ok(3_600_000));
    assert_eq!(parse_duration_to_ms("1d"), Ok(86_400_000));
}

#[test]
fn bare_number_is_seconds() {
    assert_eq!(parse_duration_to_ms("5"), Ok(5000));
    assert_eq!(parse_duration_to_ms("10"), Ok(10_000));
}

#[test]
fn clamped_to_minimum() {
    assert_eq!(parse_duration_to_ms("5ms"), Ok(10));
    assert_eq!(parse_duration_to_ms("0"), Ok(10));
    assert_eq!(parse_duration_to_ms("0ms"), Ok(10));
    assert_eq!(parse_duration_to_ms("10ms"), Ok(10));
    assert_eq!(parse_duration_to_ms("11ms"), Ok(11));
}

#[test]
fn units_in_either_case() {
    assert_eq!(parse_duration_to_ms("2S"), Ok(2000));
    assert_eq!(parse_duration_to_ms("500MS"), Ok(500));
    assert_eq!(parse_duration_to_ms("500mS"), Ok(500));
    assert_eq!(parse_duration_to_ms("3H"), Ok(10_800_000));
}

#[test]
fn surrounding_space_is_trimmed() {
    assert_eq!(parse_duration_to_ms("  10s "), Ok(10_000));
    assert_eq!(parse_duration_to_ms("\t7m\n"), Ok(420_000));
    assert_eq!(parse_duration_to_ms("\u{3000}1s\u{a0}"), Ok(1000));
}

#[test]
fn plus_sign_means_seconds() {
    assert_eq!(parse_duration_to_ms("+5"), Ok(5000));
    assert_eq!(parse_duration_to_ms("+5s"), Err(ConfigError::InvalidFormat));
    assert_eq!(parse_duration_to_ms("+"), Err(ConfigError::InvalidFormat));
}

#[test]
fn non_numeric_refused() {
    assert_eq!(parse_duration_to_ms("abc"), Err(ConfigError::InvalidFormat));
    assert_eq!(parse_duration_to_ms(""), Err(ConfigError::InvalidFormat));
    assert_eq!(parse_duration_to_ms("   "), Err(ConfigError::InvalidFormat));
    assert_eq!(parse_duration_to_ms("1.5s"), Err(ConfigError::InvalidFormat));
    assert_eq!(parse_duration_to_ms("s5"), Err(ConfigError::InvalidFormat));
    assert_eq!(parse_duration_to_ms("5 s"), Err(ConfigError::InvalidFormat));
}

#[test]
fn negative_refused() {
    assert_eq!(parse_duration_to_ms("-5"), Err(ConfigError::InvalidFormat));
    assert_eq!(parse_duration_to_ms("-5s"), Err(ConfigError::InvalidFormat));
    assert_eq!(parse_duration_to_ms(" -100ms"), Err(ConfigError::InvalidFormat));
}

#[test]
fn unknown_unit_refused() {
    assert_eq!(parse_duration_to_ms("5x"), Err(ConfigError::UnknownUnit));
    assert_eq!(parse_duration_to_ms("5sec"), Err(ConfigError::UnknownUnit));
    assert_eq!(parse_duration_to_ms("5us"), Err(ConfigError::UnknownUnit));
    assert_eq!(parse_duration_to_ms("5w"), Err(ConfigError::UnknownUnit));
}

#[test]
fn too_many_digits_refused() {
    assert_eq!(
        parse_duration_to_ms("99999999999999999999s"),
        Err(ConfigError::InvalidNumber)
    );
    assert_eq!(
        parse_duration_to_ms("+99999999999999999999"),
        Err(ConfigError::InvalidFormat)
    );
}

#[test]
fn too_many_milliseconds_refused() {
    assert_eq!(
        parse_duration_to_ms("18446744073709551615ms"),
        Ok(18_446_744_073_709_551_615)
    );
    assert_eq!(
        parse_duration_to_ms("18446744073709551615s"),
        Err(ConfigError::Overflow)
    );
    assert_eq!(
        parse_duration_to_ms("213503982335d"),
        Err(ConfigError::Overflow)
    );
}
