use shared_lib::socket::message::{Connect, Disconnect};
use shared_lib::socket::server::Server;
use std::collections::HashSet;

#[test]
fn a_new_registry_is_empty() {
    let server: Server<&str> = Server::default();
    assert_eq!(server.len(), 0);
    assert!(!server.contains(0));
}

#[test]
fn connect_then_disconnect_leaves_no_entry() {
    let mut server: Server<&str> = Server::default();
    let id = server.connect(Connect { addr: "session" });
    assert_eq!(server.len(), 1);
    assert!(server.contains(id));
    server.disconnect(Disconnect { id });
    assert_eq!(server.len(), 0);
    assert!(!server.contains(id));
}

#[test]
fn disconnect_of_an_unknown_id_changes_nothing() {
    let mut server: Server<u32> = Server::default();
    let id = server.connect(Connect { addr: 1 });
    server.disconnect(Disconnect { id: id.wrapping_add(1) });
    assert_eq!(server.len(), 1);
    assert!(server.contains(id));
    server.disconnect(Disconnect { id });
    server.disconnect(Disconnect { id });
    assert_eq!(server.len(), 0);
}

#[test]
fn many_connects_give_as_many_entries_and_distinct_ids() {
    let mut server: Server<usize> = Server::default();
    let mut ids = HashSet::new();
    for n in 0..1000 {
        let id = server.connect(Connect { addr: n });
        ids.insert(id);
    }
    assert_eq!(ids.len(), 1000);
    assert_eq!(server.len(), 1000);
    for id in ids {
        assert!(server.contains(id));
        server.disconnect(Disconnect { id });
    }
    assert_eq!(server.len(), 0);
}

#[test]
fn register_under_a_taken_id_replaces_the_entry() {
    let mut server: Server<&str> = Server::default();
    server.register(7, "first");
    server.register(7, "second");
    server.register(8, "third");
    assert_eq!(server.len(), 2);
    server.disconnect(Disconnect { id: 7 });
    assert_eq!(server.len(), 1);
    assert!(server.contains(8));
    assert!(!server.contains(7));
}
