use sshbind::HostPort;

#[test]
fn test_custom_async_runtime_basic() {
    let host_port = HostPort::try_from("127.0.0.1:22").expect("Failed to parse host:port");
    assert_eq!(host_port.host, "127.0.0.1");
    assert_eq!(host_port.port, 22);

    let formatted = host_port.to_string();
    assert_eq!(formatted, "127.0.0.1:22");
}
