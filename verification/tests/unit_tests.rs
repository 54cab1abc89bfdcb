use sshbind::types::creds_or_missing;
use sshbind::{Creds, HostPort, YamlCreds};

#[test]
fn test_hostport_parsing() {
    // Valid host:port combinations
    let hp = HostPort::try_from("127.0.0.1:22").expect("Failed to parse valid host:port");
    assert_eq!(hp.host, "127.0.0.1");
    assert_eq!(hp.port, 22);

    let hp = HostPort::try_from("example.com:2222").expect("Failed to parse domain:port");
    assert_eq!(hp.host, "example.com");
    assert_eq!(hp.port, 2222);

    let hp = HostPort::try_from("[::1]:22").expect("Failed to parse IPv6:port");
    assert_eq!(hp.host, "::1");
    assert_eq!(hp.port, 22);

    // FromStr
    let hp: HostPort = "192.168.1.1:8080".parse().expect("Failed to parse via FromStr");
    assert_eq!(hp.host, "192.168.1.1");
    assert_eq!(hp.port, 8080);

    // The text form
    let hp = HostPort { host: "test.com".to_string(), port: 443 };
    assert_eq!(hp.to_string(), "test.com:443");
}

#[test]
fn test_hostport_parsing_failures() {
    assert!(HostPort::try_from("invalid").is_err());
    assert!(HostPort::try_from("host:").is_err());
    assert!(HostPort::try_from(":22").is_err());
    assert!(HostPort::try_from("host:invalid_port").is_err());
    assert!(HostPort::try_from("host:99999").is_err()); // Port too high
}

#[test]
fn test_credentials_structure() {
    let creds = Creds {
        username: "testuser".to_string(),
        password: "testpass".to_string(),
        totp_key: Some("GEZDGNBVGY3TQOJQ".to_string()),
    };

    assert_eq!(creds.username, "testuser");
    assert_eq!(creds.password, "testpass");
    assert_eq!(creds.totp_key, Some("GEZDGNBVGY3TQOJQ".to_string()));

    let creds_no_totp = Creds {
        username: "user2".to_string(),
        password: "pass2".to_string(),
        totp_key: None,
    };

    assert_eq!(creds_no_totp.username, "user2");
    assert_eq!(creds_no_totp.password, "pass2");
    assert_eq!(creds_no_totp.totp_key, None);
}

#[test]
fn test_yaml_credentials_map() {
    let mut creds_map = YamlCreds::new();

    creds_map.insert(
        "host1:22".to_string(),
        Creds { username: "user1".to_string(), password: "pass1".to_string(), totp_key: None },
    );

    creds_map.insert(
        "host2:2222".to_string(),
        Creds {
            username: "user2".to_string(),
            password: "pass2".to_string(),
            totp_key: Some("TOTP_KEY".to_string()),
        },
    );

    assert_eq!(creds_map.len(), 2);

    let host1_creds = creds_map.get("host1:22").expect("host1 creds not found");
    assert_eq!(host1_creds.username, "user1");
    assert_eq!(host1_creds.totp_key, None);

    let host2_creds = creds_map.get("host2:2222").expect("host2 creds not found");
    assert_eq!(host2_creds.username, "user2");
    assert_eq!(host2_creds.totp_key, Some("TOTP_KEY".to_string()));
}

#[test]
fn test_credentials_clone_and_equality() {
    let creds1 = Creds {
        username: "user".to_string(),
        password: "pass".to_string(),
        totp_key: Some("KEY123".to_string()),
    };

    let creds2 = creds1.clone();
    assert_eq!(creds1, creds2);

    let creds3 = Creds {
        username: "user".to_string(),
        password: "different".to_string(),
        totp_key: Some("KEY123".to_string()),
    };

    assert_ne!(creds1, creds3);
}

#[test]
fn test_auth_method_parsing() {
    let methods = "password,keyboard-interactive,publickey";
    let method_list: Vec<&str> = methods.split(',').collect();

    assert_eq!(method_list.len(), 3);
    assert!(method_list.contains(&"password"));
    assert!(method_list.contains(&"keyboard-interactive"));
    assert!(method_list.contains(&"publickey"));
}

#[test]
fn test_empty_credentials_map() {
    let creds_map = YamlCreds::new();
    assert_eq!(creds_map.len(), 0);
    assert!(creds_map.is_empty());

    assert!(creds_map.get("nonexistent:22").is_none());
}

#[test]
fn test_multiple_hostport_formats() {
    let test_cases = vec![
        ("localhost:22", "localhost", 22),
        ("192.168.1.1:2222", "192.168.1.1", 2222),
        ("example.com:443", "example.com", 443),
        ("sub.domain.example.org:8080", "sub.domain.example.org", 8080),
    ];

    for (input, expected_host, expected_port) in test_cases {
        let hp = HostPort::try_from(input).expect(&format!("Failed to parse {}", input));
        assert_eq!(hp.host, expected_host, "Host mismatch for {}", input);
        assert_eq!(hp.port, expected_port, "Port mismatch for {}", input);

        // Round trip through the text form
        let formatted = hp.to_string();
        assert_eq!(formatted, input, "Display format mismatch for {}", input);
    }
}

#[test]
fn creds_lookup_names_the_missing_host() {
    let mut creds_map = YamlCreds::new();
    creds_map.insert(
        "host1:22".to_string(),
        Creds { username: "user1".to_string(), password: "pass1".to_string(), totp_key: None },
    );
    let h1 = HostPort::new("host1".to_string(), 22);
    let found = creds_or_missing(creds_map.get(&h1.to_string()), &h1).unwrap();
    assert_eq!(found.username, "user1");
    let h2 = HostPort::new("host2".to_string(), 2222);
    assert_eq!(
        creds_or_missing(creds_map.get(&h2.to_string()), &h2),
        Err("Couldn't find credentials for host2:2222".to_string())
    );
}
