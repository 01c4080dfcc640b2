use resk::connect::controllers::{scan, scan_targets, ScanPeerResponse};
use resk::connect::routes::ConnectPeerArgs;
use resk::utils::communication::{
    liveness_digest, multicast_server, probe_digest, CandidateList, MULTICAST_GROUP,
    MULTICAST_PORT,
};
use resk::utils::encryption::get_digest;

fn s(text: &str) -> String {
    text.to_string()
}

fn identity(key: &str, host: &str, ip: &str) -> ConnectPeerArgs {
    ConnectPeerArgs { pub_key: s(key), hostname: s(host), ip: s(ip) }
}

fn answer(key: &str, host: &str, ip: &str) -> Option<ScanPeerResponse> {
    Some(ScanPeerResponse { success: true, data: identity(key, host, ip) })
}

#[test]
fn multicast_settings() {
    assert_eq!(MULTICAST_GROUP, "239.0.0.1");
    assert_eq!(MULTICAST_PORT, 23235);
}

#[test]
fn probe_and_liveness_digests_are_those_of_their_tags() {
    assert_eq!(probe_digest(), get_digest("resk"));
    assert_eq!(liveness_digest(), get_digest("yes"));
    assert_ne!(probe_digest(), liveness_digest());
    assert_eq!(probe_digest().len(), 128);
}

#[test]
fn candidate_list_notes_an_address_once() {
    let mut list = CandidateList::new();
    assert_eq!(list.len(), 0);
    assert!(list.insert(s("10.0.0.2")));
    assert!(!list.insert(s("10.0.0.2")));
    assert!(list.insert(s("10.0.0.3")));
    assert!(!list.insert(s("10.0.0.2")));
    assert_eq!(list.len(), 2);
    assert!(list.contains(&s("10.0.0.3")));
    assert!(!list.contains(&s("10.0.0.4")));
}

#[test]
fn candidate_list_take_hands_over_and_empties() {
    let mut list = CandidateList::new();
    list.insert(s("10.0.0.2"));
    list.insert(s("10.0.0.3"));
    assert_eq!(list.take(), vec![s("10.0.0.2"), s("10.0.0.3")]);
    assert_eq!(list.len(), 0);
    assert!(list.take().is_empty());
    assert!(list.insert(s("10.0.0.2")));
}

#[test]
fn probe_from_another_node_is_answered_with_liveness() {
    let mut list = CandidateList::new();
    let probe = probe_digest();
    let reply = multicast_server(&mut list, probe.as_bytes(), &s("10.0.0.2"), &s("10.0.0.1"));
    assert_eq!(reply, Some(liveness_digest()));
    assert_eq!(list.len(), 0);
}

#[test]
fn liveness_reply_from_another_node_makes_a_candidate() {
    let mut list = CandidateList::new();
    let live = liveness_digest();
    let reply = multicast_server(&mut list, live.as_bytes(), &s("10.0.0.2"), &s("10.0.0.1"));
    assert_eq!(reply, None);
    assert_eq!(list.take(), vec![s("10.0.0.2")]);
}

#[test]
fn datagrams_from_self_are_ignored() {
    let mut list = CandidateList::new();
    let me = s("10.0.0.1");
    assert_eq!(multicast_server(&mut list, probe_digest().as_bytes(), &me, &me), None);
    assert_eq!(multicast_server(&mut list, liveness_digest().as_bytes(), &me, &me), None);
    assert_eq!(list.len(), 0);
}

#[test]
fn malformed_and_truncated_datagrams_are_dropped() {
    let mut list = CandidateList::new();
    let probe = probe_digest();
    let from = s("10.0.0.2");
    let me = s("10.0.0.1");
    assert_eq!(multicast_server(&mut list, &probe.as_bytes()[..127], &from, &me), None);
    assert_eq!(multicast_server(&mut list, b"", &from, &me), None);
    assert_eq!(multicast_server(&mut list, b"Ping", &from, &me), None);
    assert_eq!(multicast_server(&mut list, &[0xff, 0xfe, 0x00], &from, &me), None);
    let mut longer = liveness_digest().into_bytes();
    longer.push(b'0');
    assert_eq!(multicast_server(&mut list, &longer, &from, &me), None);
    assert_eq!(list.len(), 0);
}

#[test]
fn probe_answered_by_two_nodes_gives_each_candidate_once() {
    let mut list = CandidateList::new();
    let live = liveness_digest();
    let a = s("10.0.0.1");
    for from in ["10.0.0.2", "10.0.0.3", "10.0.0.2", "10.0.0.3", "10.0.0.3"] {
        assert_eq!(multicast_server(&mut list, live.as_bytes(), &s(from), &a), None);
    }
    let mut found = list.take();
    found.sort();
    assert_eq!(found, vec![s("10.0.0.2"), s("10.0.0.3")]);
}

#[test]
fn scan_targets_gives_echo_addresses_and_clears_the_list() {
    let mut list = CandidateList::new();
    list.insert(s("10.0.0.2"));
    list.insert(s("10.0.0.3"));
    assert_eq!(
        scan_targets(&mut list),
        vec![s("http://10.0.0.2:9898/echo"), s("http://10.0.0.3:9898/echo")]
    );
    assert_eq!(list.len(), 0);
    assert!(scan_targets(&mut list).is_empty());
}

#[test]
fn scan_returns_partial_results() {
    let answers = vec![None, answer("kB", "b", "10.0.0.2"), None, answer("kC", "c", "10.0.0.3")];
    let found = scan(&answers);
    assert_eq!(found.len(), 2);
    assert_eq!(found[0].pub_key, "kB");
    assert_eq!(found[0].hostname, "b");
    assert_eq!(found[0].ip, "10.0.0.2");
    assert_eq!(found[1].pub_key, "kC");
}

#[test]
fn scan_drops_repeated_identities() {
    let answers = vec![
        answer("kB", "b", "10.0.0.2"),
        answer("kB", "b", "10.0.0.2"),
        answer("kB", "b", "10.0.0.9"),
        answer("kB", "b", "10.0.0.2"),
    ];
    let found = scan(&answers);
    assert_eq!(found.len(), 2);
    assert_eq!(found[0].ip, "10.0.0.2");
    assert_eq!(found[1].ip, "10.0.0.9");
}

#[test]
fn scan_of_nothing_finds_nothing() {
    assert!(scan(&vec![]).is_empty());
    assert!(scan(&vec![None, None]).is_empty());
}

#[test]
fn subnet_sweep_asks_every_host_but_the_node() {
    let urls = resk::connect::controllers::subnet_sweep_targets(&s("192.168.1.7"));
    assert_eq!(urls.len(), 253);
    assert_eq!(urls[0], "http://192.168.1.1:9898/echo");
    assert_eq!(urls[5], "http://192.168.1.6:9898/echo");
    assert_eq!(urls[6], "http://192.168.1.8:9898/echo");
    assert_eq!(urls[8], "http://192.168.1.10:9898/echo");
    assert_eq!(urls[98], "http://192.168.1.100:9898/echo");
    assert_eq!(urls[252], "http://192.168.1.254:9898/echo");
    assert!(!urls.contains(&s("http://192.168.1.7:9898/echo")));
    assert!(!urls.contains(&s("http://192.168.1.0:9898/echo")));
    assert!(!urls.contains(&s("http://192.168.1.255:9898/echo")));
}

#[test]
fn subnet_sweep_of_a_node_at_the_edges() {
    let first = resk::connect::controllers::subnet_sweep_targets(&s("10.0.0.1"));
    assert_eq!(first.len(), 253);
    assert_eq!(first[0], "http://10.0.0.2:9898/echo");
    let last = resk::connect::controllers::subnet_sweep_targets(&s("10.0.0.254"));
    assert_eq!(last.len(), 253);
    assert_eq!(last[252], "http://10.0.0.253:9898/echo");
    let outside = resk::connect::controllers::subnet_sweep_targets(&s("10.0.0.255"));
    assert_eq!(outside.len(), 254);
}

#[test]
fn subnet_sweep_without_a_subnet_asks_nothing() {
    assert!(resk::connect::controllers::subnet_sweep_targets(&s("localhost")).is_empty());
    assert!(resk::connect::controllers::subnet_sweep_targets(&s("")).is_empty());
}

#[test]
fn subnet_sweep_asks_no_address_twice() {
    let mut urls = resk::connect::controllers::subnet_sweep_targets(&s("172.16.4.200"));
    let asked = urls.len();
    urls.sort();
    urls.dedup();
    assert_eq!(urls.len(), asked);
    assert_eq!(asked, 253);
}
