use sshbind::HostPort;

#[test]
fn host_port_new_keeps_fields() {
    let hp = HostPort::new("db.internal".to_string(), 5432);
    assert_eq!(hp.host, "db.internal");
    assert_eq!(hp.port, 5432);
    assert_eq!(hp.to_string(), "db.internal:5432");
}

#[test]
fn host_port_error_messages() {
    assert_eq!(HostPort::try_from("invalid"), Err("Invalid host:port format: invalid".to_string()));
    assert_eq!(HostPort::try_from("host:"), Err("Invalid host:port format: host:".to_string()));
    assert_eq!(HostPort::try_from(":22"), Err("Invalid host:port format: :22".to_string()));
    assert_eq!(HostPort::try_from("host:99999"), Err("Invalid port number: 99999".to_string()));
    assert_eq!(HostPort::try_from("host:x1"), Err("Invalid port number: x1".to_string()));
    assert_eq!(HostPort::try_from("[::1"), Err("Invalid IPv6 host:port format: [::1".to_string()));
    assert_eq!(HostPort::try_from("[::1]:"), Err("Invalid port number: ".to_string()));
}

#[test]
fn host_port_edge_cases() {
    // The port is read as `str::parse::<u16>` reads it.
    let hp = HostPort::try_from("h:+22").unwrap();
    assert_eq!((hp.host.as_str(), hp.port), ("h", 22));
    let hp = HostPort::try_from("h:65535").unwrap();
    assert_eq!(hp.port, 65535);
    let hp = HostPort::try_from("h:0").unwrap();
    assert_eq!(hp.port, 0);
    assert!(HostPort::try_from("h:65536").is_err());
    // Without brackets the text is split at its last colon.
    let hp = HostPort::try_from("a:b:80").unwrap();
    assert_eq!((hp.host.as_str(), hp.port), ("a:b", 80));
    let hp = HostPort::try_from("[fe80::1]:2222").unwrap();
    assert_eq!((hp.host.as_str(), hp.port), ("fe80::1", 2222));
}

#[test]
fn host_port_round_trip() {
    for (host, port) in [("localhost", 0u16), ("10.0.0.1", 22), ("example.org", 65535)] {
        let hp = HostPort::new(host.to_string(), port);
        let back = HostPort::try_from(hp.to_string().as_str()).unwrap();
        assert_eq!(back, hp);
    }
}

#[test]
fn host_port_from_str_agrees_with_try_from() {
    for s in ["a:1", "[::1]:9", "bad", "x:70000"] {
        let parsed: Result<HostPort, String> = s.parse();
        assert_eq!(parsed, HostPort::try_from(s));
        assert_eq!(HostPort::from_str(s), HostPort::try_from(s));
    }
}
