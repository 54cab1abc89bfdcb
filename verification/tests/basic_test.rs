use sshbind::registry::AddrMap;
use sshbind::unbind;

#[test]
fn test_unbind_nonexistent() {
    // Unbinding an address where nothing is bound does nothing.
    let bind_addr = "127.0.0.1:9999";
    let mut bindings: AddrMap<()> = AddrMap::new();

    // This should not panic even though nothing is bound
    unbind(&mut bindings, bind_addr);
}
