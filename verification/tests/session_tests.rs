use sshbind::async_ssh::SessionConfiguration;

#[test]
fn tests_test_session_configuration_default() {
    let config = SessionConfiguration::default();
    assert!(!config.compress);
    assert_eq!(config.timeout, None);
}

#[test]
fn test_session_configuration_custom() {
    let config = SessionConfiguration { compress: true, timeout: Some(30) };
    assert!(config.compress);
    assert_eq!(config.timeout, Some(30));
}

#[test]
fn async_ssh_integration_test_session_configuration_default() {
    let config = SessionConfiguration::default();
    assert_eq!(config.compress, false);
    assert_eq!(config.timeout, None);
}
