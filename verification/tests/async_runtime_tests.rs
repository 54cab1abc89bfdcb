use std::io::{Cursor, Read, Write};

use sshbind::auth::{AuthMethod, OrderedAuthMethods};
use sshbind::{Creds, HostPort};

#[test]
fn test_public_api_concepts() {
    let hp = HostPort::try_from("127.0.0.1:22").expect("Failed to parse host:port");
    assert_eq!(hp.host, "127.0.0.1");
    assert_eq!(hp.port, 22);

    let creds = Creds { username: "test".to_string(), password: "pass".to_string(), totp_key: None };

    assert_eq!(creds.username, "test");
}

#[test]
fn test_duplex_communication_concepts() {
    let mut stream_a = Cursor::new(b"hello".to_vec());
    let mut stream_b = Cursor::new(Vec::new());

    let mut buf = vec![0u8; 10];
    let n = stream_a.read(&mut buf).expect("Failed to read");
    assert_eq!(n, 5);
    assert_eq!(&buf[..n], b"hello");

    stream_b.write_all(b"world").expect("Failed to write");
    assert_eq!(stream_b.get_ref(), b"world");
}

#[test]
fn test_ssh_auth_method_patterns() {
    let auth_methods = "password,keyboard-interactive,publickey";
    let methods: Vec<&str> = auth_methods.split(',').collect();

    assert_eq!(methods.len(), 3);
    assert!(methods.contains(&"password"));
    assert!(methods.contains(&"keyboard-interactive"));
    assert!(methods.contains(&"publickey"));

    let filtered_methods: Vec<&str> =
        methods.into_iter().filter(|&method| method != "hostbased").collect();

    assert_eq!(filtered_methods.len(), 3);

    // The same list, read by the library's parser, in the server's order.
    let parsed = OrderedAuthMethods::parse(auth_methods);
    assert_eq!(
        parsed.methods,
        vec![AuthMethod::Password, AuthMethod::KeyboardInteractive, AuthMethod::PublicKey]
    );
}

#[test]
fn test_configuration_parsing_patterns() {
    let config_line = "IdentityFile ~/.ssh/id_rsa";
    let parts: Vec<&str> = config_line.split_whitespace().collect();

    assert_eq!(parts.len(), 2);
    assert_eq!(parts[0], "IdentityFile");
    assert_eq!(parts[1], "~/.ssh/id_rsa");

    let path = "~/.ssh/config";
    let expanded =
        if path.starts_with('~') { format!("/home/user{}", &path[1..]) } else { path.to_string() };

    assert_eq!(expanded, "/home/user/.ssh/config");
}
