use consul_online::{health_url, parse_bool, url_base, Config, Error, HeaderAdder};

fn config(addr: &str, ssl: bool) -> Config {
    Config {
        http_addr: addr.to_owned(),
        http_ssl: ssl,
        timeout: None,
        interval: None,
        reconnect: false,
        skip_verify: false,
        ca_cert: None,
        client_cert: None,
        client_key: None,
        http_token: None,
        http_token_file: None,
    }
}

#[test]
fn http_address_stays_plain() {
    let (base, tls) = url_base(&config("http://h:8500", false)).unwrap();
    assert_eq!(base, "http://h:8500");
    assert!(!tls);
}

#[test]
fn bare_address_with_tls() {
    let (base, tls) = url_base(&config("h:8500", true)).unwrap();
    assert_eq!(base, "https://h:8500");
    assert!(tls);
}

#[test]
fn bare_address_without_tls() {
    let (base, tls) = url_base(&config("127.0.0.1:8500", false)).unwrap();
    assert_eq!(base, "http://127.0.0.1:8500");
    assert!(!tls);
}

#[test]
fn http_address_is_upgraded_with_tls() {
    let (base, tls) = url_base(&config("http://h:8500", true)).unwrap();
    assert_eq!(base, "https://h:8500");
    assert!(tls);
}

#[test]
fn https_address_is_kept() {
    for ssl in [false, true] {
        let (base, tls) = url_base(&config("https://localhost:8501", ssl)).unwrap();
        assert_eq!(base, "https://localhost:8501");
        assert!(tls);
    }
}

#[test]
fn unix_socket_is_refused() {
    for ssl in [false, true] {
        assert!(matches!(
            url_base(&config("unix:/var/run/x.sock", ssl)),
            Err(Error::UnixSocketUnsupported)
        ));
    }
}

#[test]
fn short_and_odd_addresses() {
    assert_eq!(url_base(&config("", false)).unwrap(), ("http://".to_owned(), false));
    assert_eq!(url_base(&config("http://", true)).unwrap(), ("https://".to_owned(), true));
    assert_eq!(url_base(&config("http:/", false)).unwrap(), ("http://http:/".to_owned(), false));
    assert_eq!(url_base(&config("unix", true)).unwrap(), ("https://unix".to_owned(), true));
    assert!(matches!(url_base(&config("unix:", true)), Err(Error::UnixSocketUnsupported)));
    assert!(matches!(url_base(&config("unix:x.sock", false)), Err(Error::UnixSocketUnsupported)));
    assert_eq!(
        url_base(&config("http://h\u{e9}te:8500", true)).unwrap(),
        ("https://h\u{e9}te:8500".to_owned(), true)
    );
}

#[test]
fn health_url_appends_the_path() {
    assert_eq!(health_url("https://h:8500"), "https://h:8500/v1/operator/raft/configuration");
    assert_eq!(health_url(""), "/v1/operator/raft/configuration");
}

#[test]
fn parse_bool_takes_true_and_false_only() {
    assert!(matches!(parse_bool("true"), Ok(true)));
    assert!(matches!(parse_bool("false"), Ok(false)));
    for odd in ["", "TRUE", "1", "true ", "fals", "falsey", "tru"] {
        match parse_bool(odd) {
            Err(Error::InvalidBool(v)) => assert_eq!(v, odd),
            other => panic!("unexpected: {:?}", other),
        }
    }
}

#[test]
fn literal_token_wins_over_the_file() {
    let mut cfg = config("h:8500", false);
    cfg.http_token = Some("abc".to_owned());
    cfg.http_token_file = Some("/etc/token".to_owned());
    assert_eq!(HeaderAdder::file_needed(&cfg), None);
    let adder = HeaderAdder::try_new(&cfg, Some("  from-file\n"));
    assert_eq!(adder, HeaderAdder(Some(("X-Consul-Token".to_owned(), "abc".to_owned()))));
    let adder = HeaderAdder::try_new(&cfg, None);
    assert_eq!(adder, HeaderAdder(Some(("X-Consul-Token".to_owned(), "abc".to_owned()))));
}

#[test]
fn token_file_is_trimmed() {
    let mut cfg = config("h:8500", false);
    cfg.http_token_file = Some("/etc/token".to_owned());
    assert_eq!(HeaderAdder::file_needed(&cfg), Some("/etc/token".to_owned()));
    let adder = HeaderAdder::try_new(&cfg, Some(" \t secret token \r\n"));
    assert_eq!(
        adder,
        HeaderAdder(Some(("X-Consul-Token".to_owned(), "secret token".to_owned())))
    );
}

#[test]
fn no_token_no_header() {
    let cfg = config("h:8500", false);
    assert_eq!(HeaderAdder::file_needed(&cfg), None);
    assert_eq!(HeaderAdder::try_new(&cfg, None), HeaderAdder(None));
}
