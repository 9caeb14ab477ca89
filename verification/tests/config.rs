use usage_dash::config::{parse_u16, Config, ConfigError};

#[test]
fn defaults_to_port_3000_and_the_data_directory() {
    let config = Config::from_settings(None, None).unwrap();
    assert_eq!(config.bind_address, "127.0.0.1:3000");
    assert_eq!(config.database_path, "data/usage-dashboard.sqlite3");
}

#[test]
fn uses_the_configured_port_and_path() {
    let config = Config::from_settings(Some("5050".to_owned()), Some("/tmp/x.sqlite3".to_owned())).unwrap();
    assert_eq!(config.bind_address, "127.0.0.1:5050");
    assert_eq!(config.database_path, "/tmp/x.sqlite3");
}

#[test]
fn rejects_unusable_ports() {
    for bad in ["0", "65536", "", "abc", "-1", " 80", "80 ", "+", "1.5"] {
        assert_eq!(
            Config::from_settings(Some(bad.to_owned()), None).err(),
            Some(ConfigError::InvalidPort),
            "{bad}"
        );
    }
}

#[test]
fn accepts_ports_as_rust_parses_them() {
    assert_eq!(Config::from_settings(Some("+8080".to_owned()), None).unwrap().bind_address, "127.0.0.1:8080");
    assert_eq!(Config::from_settings(Some("0065535".to_owned()), None).unwrap().bind_address, "127.0.0.1:65535");
    assert_eq!(Config::from_settings(Some("1".to_owned()), None).unwrap().bind_address, "127.0.0.1:1");
}

#[test]
fn parses_u16_like_std() {
    for text in ["0", "1", "65535", "65536", "+7", "++7", "-0", "", "12a", "000000000000000000042", "99999999999"] {
        assert_eq!(parse_u16(text), text.parse::<u16>().ok(), "{text}");
    }
}

#[test]
fn every_address_is_on_loopback() {
    for port in ["1", "80", "3000", "65535"] {
        let config = Config::from_settings(Some(port.to_owned()), None).unwrap();
        assert!(config.bind_address.starts_with("127.0.0.1:"));
    }
}

#[test]
fn invalid_port_message() {
    assert_eq!(
        ConfigError::InvalidPort.message(),
        "USAGE_DASH_PORT must be an integer from 1 through 65535"
    );
}
