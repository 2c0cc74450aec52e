use tatsumi_exporter::config::{bind_address, parse_port, ConfigError, DEFAULT_PORT};

#[test]
fn nothing_configured_gives_the_defaults() {
    let address = bind_address(None, None).expect("the defaults are valid");
    assert_eq!(address.host, "0.0.0.0");
    assert_eq!(address.port, 14000);
    assert_eq!(DEFAULT_PORT, 14000);
}

#[test]
fn configured_host_and_port_are_taken() {
    let address = bind_address(Some("127.0.0.1".to_string()), Some("9100".to_string()))
        .expect("the settings are valid");
    assert_eq!(address.host, "127.0.0.1");
    assert_eq!(address.port, 9100);
}

#[test]
fn host_and_port_default_independently() {
    let only_host = bind_address(Some("::1".to_string()), None).expect("the settings are valid");
    assert_eq!(only_host.host, "::1");
    assert_eq!(only_host.port, 14000);
    let only_port = bind_address(None, Some("80".to_string())).expect("the settings are valid");
    assert_eq!(only_port.host, "0.0.0.0");
    assert_eq!(only_port.port, 80);
}

#[test]
fn invalid_port_is_refused() {
    let refused = bind_address(None, Some("http".to_string()));
    assert!(matches!(refused, Err(ConfigError::InvalidPort)));
    let too_large = bind_address(Some("localhost".to_string()), Some("65536".to_string()));
    assert!(matches!(too_large, Err(ConfigError::InvalidPort)));
}

#[test]
fn ports_are_read_as_decimal_numbers() {
    assert_eq!(parse_port("0"), Some(0));
    assert_eq!(parse_port("7"), Some(7));
    assert_eq!(parse_port("14000"), Some(14000));
    assert_eq!(parse_port("65535"), Some(65535));
    assert_eq!(parse_port("0080"), Some(80));
    assert_eq!(parse_port("+443"), Some(443));
}

#[test]
fn ports_beyond_16_bits_are_refused() {
    assert_eq!(parse_port("65536"), None);
    assert_eq!(parse_port("70000"), None);
    assert_eq!(parse_port("655350"), None);
    assert_eq!(parse_port("4294967296"), None);
    assert_eq!(parse_port("99999999999999999999999999"), None);
}

#[test]
fn texts_that_are_no_numbers_are_refused() {
    assert_eq!(parse_port(""), None);
    assert_eq!(parse_port("+"), None);
    assert_eq!(parse_port("-"), None);
    assert_eq!(parse_port("-1"), None);
    assert_eq!(parse_port("-0"), None);
    assert_eq!(parse_port("++1"), None);
    assert_eq!(parse_port("1+"), None);
    assert_eq!(parse_port(" 80"), None);
    assert_eq!(parse_port("80 "), None);
    assert_eq!(parse_port("8 0"), None);
    assert_eq!(parse_port("80a"), None);
    assert_eq!(parse_port("0x50"), None);
    assert_eq!(parse_port("1_000"), None);
    assert_eq!(parse_port("8.0"), None);
    assert_eq!(parse_port("８０"), None);
    assert_eq!(parse_port("٣"), None);
}

#[test]
fn ports_are_read_as_the_standard_parser_reads_them() {
    let texts: Vec<&str> = vec![
        "", "+", "-", "0", "00", "+0", "-0", "1", "9", "10", "65534", "65535", "65536", "65540",
        "99999", "100000", "+65535", "+65536", "000065535", "12a", "a12", "1 2", " 12", "12 ",
        "1e3", "0x10", "１２", "+-1", "-+1", "++1", "4294967295", "4294967296", "18446744073709551616",
    ];
    for text in texts {
        assert_eq!(parse_port(text), text.parse::<u16>().ok(), "{:?}", text);
    }
}
