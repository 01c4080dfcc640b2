use resk::connect::controllers::connect_peer;
use resk::connect::routes::ConnectPeerArgs;
use resk::utils::db::Database;

fn s(text: &str) -> String {
    text.to_string()
}

#[test]
fn new_registry_is_empty() {
    let db = Database::new();
    assert_eq!(db.len(), 0);
    assert!(db.get_peers_ip().is_empty());
    assert_eq!(db.get_peer_pub_key(&s("10.0.0.2")), None);
    assert!(!db.contains_key(&s("key")));
}

#[test]
fn insert_peer_writes_a_record_for_a_new_key() {
    let mut db = Database::new();
    assert!(db.insert_peer(&s("keyB"), &s("b-host"), &s("10.0.0.2")));
    assert_eq!(db.len(), 1);
    assert!(db.contains_key(&s("keyB")));
    let peer = db.get(0);
    assert_eq!(peer.pub_key, "keyB");
    assert_eq!(peer.hostname, "b-host");
    assert_eq!(peer.ip, "10.0.0.2");
}

#[test]
fn insert_peer_twice_with_same_key_keeps_the_first_record() {
    let mut db = Database::new();
    assert!(db.insert_peer(&s("keyB"), &s("b-host"), &s("10.0.0.2")));
    assert!(!db.insert_peer(&s("keyB"), &s("other-host"), &s("10.0.0.77")));
    assert_eq!(db.len(), 1);
    assert_eq!(db.get(0).hostname, "b-host");
    assert_eq!(db.get(0).ip, "10.0.0.2");
    assert_eq!(db.get_peers_ip(), vec![s("10.0.0.2")]);
    assert_eq!(db.get_peer_pub_key(&s("10.0.0.77")), None);
}

#[test]
fn insert_peer_matches_the_whole_key_only() {
    let mut db = Database::new();
    assert!(db.insert_peer(&s("abcdef"), &s("h1"), &s("10.0.0.2")));
    assert!(db.insert_peer(&s("bcd"), &s("h2"), &s("10.0.0.3")));
    assert!(db.insert_peer(&s(""), &s("h3"), &s("10.0.0.4")));
    assert_eq!(db.len(), 3);
}

#[test]
fn get_peers_ip_keeps_the_order_of_registration() {
    let mut db = Database::new();
    db.insert_peer(&s("k1"), &s("h1"), &s("10.0.0.9"));
    db.insert_peer(&s("k2"), &s("h2"), &s("10.0.0.3"));
    db.insert_peer(&s("k3"), &s("h3"), &s("10.0.0.5"));
    assert_eq!(db.get_peers_ip(), vec![s("10.0.0.9"), s("10.0.0.3"), s("10.0.0.5")]);
}

#[test]
fn get_peer_pub_key_finds_the_key_of_an_address() {
    let mut db = Database::new();
    db.insert_peer(&s("k1"), &s("h1"), &s("10.0.0.9"));
    db.insert_peer(&s("k2"), &s("h2"), &s("10.0.0.3"));
    assert_eq!(db.get_peer_pub_key(&s("10.0.0.3")), Some(s("k2")));
    assert_eq!(db.get_peer_pub_key(&s("10.0.0.9")), Some(s("k1")));
    assert_eq!(db.get_peer_pub_key(&s("10.0.0.4")), None);
}

#[test]
fn get_peer_pub_key_takes_the_first_record_at_an_address() {
    let mut db = Database::new();
    db.insert_peer(&s("k1"), &s("h1"), &s("10.0.0.9"));
    db.insert_peer(&s("k2"), &s("h2"), &s("10.0.0.9"));
    assert_eq!(db.len(), 2);
    assert_eq!(db.get_peer_pub_key(&s("10.0.0.9")), Some(s("k1")));
}

#[test]
fn handshake_registers_the_asserted_identity_once() {
    let mut db = Database::new();
    let b = ConnectPeerArgs { pub_key: s("keyB"), hostname: s("b"), ip: s("10.0.0.2") };
    assert!(connect_peer(&mut db, &b));
    assert!(!connect_peer(&mut db, &b));
    let moved = ConnectPeerArgs { pub_key: s("keyB"), hostname: s("b"), ip: s("10.0.0.8") };
    assert!(!connect_peer(&mut db, &moved));
    assert_eq!(db.len(), 1);
    assert_eq!(db.get_peers_ip(), vec![s("10.0.0.2")]);
}
