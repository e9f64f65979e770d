use fae_agent::config::{parse_origins, parse_port, PortError, Settings};

#[test]
fn settings_defaults() {
    let s = Settings::from_values(None, None, None, None, None, None).ok().unwrap();
    assert_eq!(s.host, "0.0.0.0");
    assert_eq!(s.port, 3001);
    assert_eq!(s.database_url, "sqlite::memory:");
    assert_eq!(s.cors_origins, vec!["http://localhost:5173".to_string(), "http://localhost:3000".to_string()]);
    assert_eq!(s.llm_log_dir, "./logs/llm");
    assert_eq!(s.server_addr(), "0.0.0.0:3001");
}

#[test]
fn settings_from_environment_values() {
    let s = Settings::from_values(
        Some("127.0.0.1".to_string()),
        Some("8080".to_string()),
        Some("18080".to_string()),
        Some("sqlite://fae.db".to_string()),
        Some(" https://a.example , https://b.example,".to_string()),
        Some("/var/log/fae".to_string()),
    )
    .ok()
    .unwrap();
    assert_eq!(s.server_addr(), "127.0.0.1:8080");
    assert_eq!(s.cors_origins, vec!["https://a.example".to_string(), "https://b.example".to_string(), "".to_string()]);
    assert_eq!(s.llm_log_dir, "/var/log/fae");
}

#[test]
fn settings_take_daemon_port_when_port_is_unset() {
    let s = Settings::from_values(None, None, Some("18080".to_string()), None, None, None).ok().unwrap();
    assert_eq!(s.port, 18080);
    assert!(matches!(
        Settings::from_values(None, None, Some("x".to_string()), None, None, None),
        Err(PortError::InvalidDigit)
    ));
}

#[test]
fn settings_refuse_bad_ports() {
    assert!(matches!(Settings::from_values(None, Some("".to_string()), None, None, None, None), Err(PortError::Empty)));
    assert!(matches!(Settings::from_values(None, Some("80a".to_string()), None, None, None, None), Err(PortError::InvalidDigit)));
    assert!(matches!(Settings::from_values(None, Some("65536".to_string()), None, None, None, None), Err(PortError::TooLarge)));
}

#[test]
fn port_parsing_follows_u16() {
    for text in ["0", "80", "+443", "65535", "00042", "", "+", "-1", " 80", "65536", "99999x", "1x99999", "٣"] {
        let ours = parse_port(text);
        let std: Result<u16, _> = text.parse::<u16>();
        match (ours, std) {
            (Ok(a), Ok(b)) => assert_eq!(a, b, "{}", text),
            (Err(e), Err(f)) => assert_eq!(e.message(), f.to_string(), "{}", text),
            _ => panic!("disagreement on {:?}", text),
        }
    }
}

#[test]
fn port_round_trip() {
    for port in [0u16, 1, 9, 10, 3000, 65535] {
        let s = Settings {
            host: "h".to_string(),
            port,
            database_url: String::new(),
            cors_origins: vec![],
            llm_log_dir: String::new(),
        };
        let addr = s.server_addr();
        let text = &addr[2..];
        assert_eq!(parse_port(text).ok(), Some(port));
    }
}

#[test]
fn origins_are_split_and_trimmed() {
    assert_eq!(parse_origins(""), vec!["".to_string()]);
    assert_eq!(parse_origins("a,,b"), vec!["a".to_string(), "".to_string(), "b".to_string()]);
}
