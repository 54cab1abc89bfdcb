use std::collections::VecDeque;
use std::io;
use std::sync::{Arc, Mutex};

use sshbind::{CancellationToken, Creds, HostPort};

#[test]
fn test_custom_runtime_concepts() {
    let hp = HostPort::try_from("127.0.0.1:22").expect("Failed to parse host:port");
    assert_eq!(hp.host, "127.0.0.1");
    assert_eq!(hp.port, 22);

    let creds = Creds { username: "test".to_string(), password: "pass".to_string(), totp_key: None };

    assert_eq!(creds.username, "test");
}

#[test]
fn test_shared_state_with_mutex() {
    let shared_data = Arc::new(Mutex::new(Vec::<String>::new()));
    let data_clone = shared_data.clone();

    {
        let mut vec = data_clone.lock().unwrap();
        vec.push("test data".to_string());
    }

    let final_data = shared_data.lock().unwrap();
    assert_eq!(final_data.len(), 1);
    assert_eq!(final_data[0], "test data");
}

#[test]
fn test_cancellation_token_pattern() {
    let token = CancellationToken::new();
    assert!(!token.is_cancelled());

    token.cancel();
    assert!(token.is_cancelled());
}

struct Channel {
    buffer: Mutex<VecDeque<u8>>,
}

impl Channel {
    fn new() -> Self {
        Channel { buffer: Mutex::new(VecDeque::new()) }
    }

    fn write(&self, data: &[u8]) -> io::Result<usize> {
        let mut buffer = self.buffer.lock().unwrap();
        buffer.extend(data);
        Ok(data.len())
    }

    fn read(&self, buf: &mut [u8]) -> io::Result<usize> {
        let mut buffer = self.buffer.lock().unwrap();
        let to_read = std::cmp::min(buf.len(), buffer.len());
        for slot in buf.iter_mut().take(to_read) {
            *slot = buffer.pop_front().unwrap();
        }
        Ok(to_read)
    }
}

#[test]
fn test_channel_communication_patterns() {
    let channel = Channel::new();

    let written = channel.write(b"test data").expect("Failed to write");
    assert_eq!(written, 9);

    let mut buf = vec![0u8; 20];
    let read = channel.read(&mut buf).expect("Failed to read");
    assert_eq!(read, 9);
    assert_eq!(&buf[..read], b"test data");
}
