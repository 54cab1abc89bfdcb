use sshbind::bind::{find_sops_binary, parse_bind_targets, register_binding, BindError, SopsCandidate};
use sshbind::registry::AddrMap;
use sshbind::{unbind, HostPort};

fn dir(path: &str, sops: bool, exe: bool) -> SopsCandidate {
    SopsCandidate {
        sops_path: format!("{}/sops", path),
        sops_is_file: sops,
        exe_path: format!("{}/sops.exe", path),
        exe_is_file: exe,
    }
}

#[test]
fn bind_targets_are_parsed_in_order() {
    let jumps = vec!["127.0.0.1:2222".to_string(), "[::1]:2323".to_string()];
    let (hosts, remote) = parse_bind_targets(&jumps, &Some("httpforever.com:80".to_string())).unwrap();
    assert_eq!(
        hosts,
        vec![HostPort::new("127.0.0.1".to_string(), 2222), HostPort::new("::1".to_string(), 2323)]
    );
    assert_eq!(remote, Some(HostPort::new("httpforever.com".to_string(), 80)));

    let (hosts, remote) = parse_bind_targets(&Vec::new(), &None).unwrap();
    assert!(hosts.is_empty());
    assert_eq!(remote, None);
}

#[test]
fn bind_target_errors() {
    let jumps = vec!["ok:1".to_string(), "bad".to_string(), "worse:".to_string()];
    assert_eq!(
        parse_bind_targets(&jumps, &Some("r:1".to_string())),
        Err(BindError::InvalidJumpHost("Invalid host:port format: bad".to_string()))
    );
    let jumps = vec!["ok:1".to_string()];
    assert_eq!(
        parse_bind_targets(&jumps, &Some("r:99999".to_string())),
        Err(BindError::InvalidRemote("Invalid port number: 99999".to_string()))
    );
}

#[test]
fn sops_search_follows_path_order() {
    let dirs = vec![dir("/a", false, false), dir("/b", false, true), dir("/c", true, false)];
    assert_eq!(find_sops_binary(&dirs), Ok("/b/sops.exe".to_string()));
    let dirs = vec![dir("/a", true, true)];
    assert_eq!(find_sops_binary(&dirs), Ok("/a/sops".to_string()));
    assert_eq!(
        find_sops_binary(&vec![dir("/x", false, false)]),
        Err("`sops` binary not found in system's PATH.".to_string())
    );
    assert_eq!(
        find_sops_binary(&Vec::new()),
        Err("`sops` binary not found in system's PATH.".to_string())
    );
}

#[test]
fn bindings_table() {
    let mut t: AddrMap<u32> = AddrMap::new();
    assert_eq!(register_binding(&mut t, "127.0.0.1:7000", 1), None);
    assert_eq!(register_binding(&mut t, "127.0.0.1:7001", 2), None);
    assert_eq!(t.len(), 2);
    // Binding the same address again hands back the earlier binding.
    assert_eq!(register_binding(&mut t, "127.0.0.1:7000", 3), Some(1));
    assert_eq!(t.get("127.0.0.1:7000"), Some(&3));
    assert_eq!(t.addrs(), vec!["127.0.0.1:7000".to_string(), "127.0.0.1:7001".to_string()]);

    assert_eq!(unbind(&mut t, "127.0.0.1:7000"), Some(3));
    assert!(!t.contains("127.0.0.1:7000"));
    assert_eq!(unbind(&mut t, "127.0.0.1:7000"), None);
    assert_eq!(t.values(), vec![&2]);
    t.clear();
    assert_eq!(t.len(), 0);
}

#[test]
fn insert_then_remove_restores_table() {
    let mut t: AddrMap<&str> = AddrMap::new();
    t.insert("a:1".to_string(), "first");
    t.insert("b:2".to_string(), "second");
    let before = t.addrs();
    assert_eq!(t.insert("c:3".to_string(), "third"), None);
    assert_eq!(t.remove("c:3"), Some("third"));
    assert_eq!(t.addrs(), before);
    assert_eq!(t.get("a:1"), Some(&"first"));
    assert_eq!(t.get("b:2"), Some(&"second"));
}
