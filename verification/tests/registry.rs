use bytes::Bytes;
use netprobe::protocols::address::IpAddress;
use netprobe::protocols::address::SocketAddress;
use netprobe::protocols::registry::ClientRegistry;
use netprobe::protocols::registry::TcpClientInfo;
use tokio::sync::mpsc::Receiver;
use tokio::sync::mpsc::channel;

fn addr(port: u16) -> SocketAddress {
    SocketAddress::v4(192, 168, 0, 1, port)
}

fn entry(port: u16) -> (TcpClientInfo, Receiver<Bytes>) {
    let (tx, rx) = channel::<Bytes>(2);
    (TcpClientInfo { addr: addr(port), tx }, rx)
}

#[test]
fn a_new_registry_is_empty() {
    let registry = ClientRegistry::new();
    assert_eq!(registry.len(), 0);
    assert!(!registry.contains("a"));
    assert!(registry.get("a").is_none());
    assert!(registry.first().is_none());
    assert!(registry.connections().is_empty());
}

#[test]
fn insert_then_lookup() {
    let mut registry = ClientRegistry::new();
    let (a, mut rx_a) = entry(1);
    assert!(registry.insert("a".to_string(), a).is_none());
    assert_eq!(registry.len(), 1);
    assert!(registry.contains("a"));
    assert!(!registry.contains("A"));
    assert!(!registry.contains(""));
    let found = registry.get("a").unwrap();
    assert_eq!(found.addr, addr(1));
    found.tx.try_send(Bytes::from_static(b"x")).unwrap();
    assert_eq!(rx_a.try_recv().unwrap(), Bytes::from_static(b"x"));
}

#[test]
fn listing_keeps_the_order_of_registration() {
    let mut registry = ClientRegistry::new();
    let mut receivers = Vec::new();
    for (i, id) in ["c", "a", "b"].iter().enumerate() {
        let (info, rx) = entry(i as u16);
        receivers.push(rx);
        registry.insert(id.to_string(), info);
    }
    let ids: Vec<String> = registry.connections().into_iter().map(|c| c.connection_id).collect();
    assert_eq!(ids, vec!["c", "a", "b"]);
    let (first_id, first) = registry.first().unwrap();
    assert_eq!(first_id, "c");
    assert_eq!(first.addr, addr(0));
}

#[test]
fn inserting_a_known_key_replaces_the_entry_in_place() {
    let mut registry = ClientRegistry::new();
    let (a, _rx_a) = entry(1);
    let (b, _rx_b) = entry(2);
    let (a2, mut rx_a2) = entry(3);
    registry.insert("a".to_string(), a);
    registry.insert("b".to_string(), b);
    let replaced = registry.insert("a".to_string(), a2).unwrap();
    assert_eq!(replaced.addr, addr(1));
    assert_eq!(registry.len(), 2);
    let list = registry.connections();
    assert_eq!(list[0].connection_id, "a");
    assert_eq!(list[0].remote_addr, addr(3));
    assert_eq!(list[1].connection_id, "b");
    registry.get("a").unwrap().tx.try_send(Bytes::from_static(b"n")).unwrap();
    assert_eq!(rx_a2.try_recv().unwrap(), Bytes::from_static(b"n"));
}

#[test]
fn remove_takes_out_one_peer_and_keeps_the_rest_in_order() {
    let mut registry = ClientRegistry::new();
    let mut receivers = Vec::new();
    for (i, id) in ["a", "b", "c"].iter().enumerate() {
        let (info, rx) = entry(i as u16);
        receivers.push(rx);
        registry.insert(id.to_string(), info);
    }
    let removed = registry.remove("b").unwrap();
    assert_eq!(removed.addr, addr(1));
    assert!(registry.remove("b").is_none());
    assert!(registry.remove("z").is_none());
    assert_eq!(registry.len(), 2);
    let ids: Vec<String> = registry.connections().into_iter().map(|c| c.connection_id).collect();
    assert_eq!(ids, vec!["a", "c"]);
    assert!(!registry.contains("b"));
}

#[test]
fn addresses_are_plain_values() {
    let a = SocketAddress::v4(1, 2, 3, 4, 5);
    assert_eq!(a.ip, IpAddress::V4(1, 2, 3, 4));
    assert_eq!(a.port, 5);
    assert_eq!(a.flow_info, 0);
    assert_eq!(a.scope_id, 0);
    assert!(a.is_ipv4());
    let l = SocketAddress::loopback(8080);
    assert_eq!(l, SocketAddress::v4(127, 0, 0, 1, 8080));
    let six = SocketAddress { ip: IpAddress::V6(1), port: 9, flow_info: 0, scope_id: 2 };
    assert!(!six.is_ipv4());
    assert_ne!(six, l);
}
