use sshbind::cli::{Cli, Commands};
use sshbind::logging::{log_start, LogStart};
use sshbind::CancellationToken;

#[test]
fn log_start_choices() {
    assert_eq!(log_start(false, Some(7)), Ok(None));
    assert_eq!(log_start(true, None), Ok(Some(LogStart::End)));
    assert_eq!(log_start(true, Some(0)), Ok(Some(LogStart::End)));
    assert_eq!(log_start(true, Some(1)), Ok(Some(LogStart::Start)));
    assert_eq!(log_start(true, Some(2)), Err("Unsupported Log-Level".to_string()));
}

#[test]
fn cancellation_is_shared_by_clones() {
    let token = CancellationToken::new();
    let other = token.clone();
    assert!(!other.is_cancelled());
    other.cancel();
    assert!(token.is_cancelled());
    // Waiting on a cancelled token returns at once.
    token.wait_cancelled();
    // Cancelling twice changes nothing.
    token.cancel();
    assert!(other.is_cancelled());
}

#[test]
fn cli_values() {
    let cli = Cli {
        command: Some(Commands::Unbind { addr: None, all: true }),
        verbose: false,
        log_level: None,
    };
    assert!(matches!(cli.command, Some(Commands::Unbind { all: true, .. })));
}
