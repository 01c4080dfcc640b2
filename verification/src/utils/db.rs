//! The peer registry: the records of the peers that a node trusts.
//!
//! A record is written once, when a public key is first seen, and is never
//! changed afterwards. A peer that comes back under another address keeps its
//! first record.

use vstd::prelude::*;
use vstd::string::*;

verus! {

/// One trusted peer: its public key in transport text, the name it gave
/// itself, and the address it is reached at.
#[derive(Debug, Clone)]
pub struct Peer {
    pub pub_key: String,
    pub hostname: String,
    pub ip: String,
}

/// What a record says, as plain texts.
pub ghost struct PeerView {
    pub pub_key: Seq<char>,
    pub hostname: Seq<char>,
    pub ip: Seq<char>,
}

impl View for Peer {
    type V = PeerView;

    open spec fn view(&self) -> PeerView {
        PeerView { pub_key: self.pub_key@, hostname: self.hostname@, ip: self.ip@ }
    }
}

/// Whether some record holds `key`.
pub open spec fn has_key(records: Seq<PeerView>, key: Seq<char>) -> bool {
    exists|i: int| 0 <= i < records.len() && (#[trigger] records[i]).pub_key == key
}

/// No two records hold the same public key.
pub open spec fn unique_keys(records: Seq<PeerView>) -> bool {
    forall|i: int, j: int|
        0 <= i < j < records.len() ==> (#[trigger] records[i]).pub_key != (
        #[trigger] records[j]).pub_key
}

/// Exactly one record holds `key`.
pub open spec fn exactly_one_with_key(records: Seq<PeerView>, key: Seq<char>) -> bool {
    exists|i: int|
        0 <= i < records.len() && (#[trigger] records[i]).pub_key == key && forall|j: int|
            0 <= j < records.len() && (#[trigger] records[j]).pub_key == key ==> j == i
}

/// The registry after a handshake: a new record at the end where the key is
/// new, the registry as it was where the key is known.
pub open spec fn upsert(
    records: Seq<PeerView>,
    key: Seq<char>,
    hostname: Seq<char>,
    ip: Seq<char>,
) -> Seq<PeerView> {
    if has_key(records, key) {
        records
    } else {
        records.push(PeerView { pub_key: key, hostname, ip })
    }
}

/// The addresses of all records, in the order of the records.
pub open spec fn addresses(records: Seq<PeerView>) -> Seq<Seq<char>> {
    Seq::new(records.len(), |i: int| records[i].ip)
}

/// The public key of the first record at address `ip`, if there is one.
pub open spec fn key_at_address(records: Seq<PeerView>, ip: Seq<char>) -> Option<Seq<char>>
    decreases records.len(),
{
    if records.len() == 0 {
        None
    } else if records[0].ip == ip {
        Some(records[0].pub_key)
    } else {
        key_at_address(records.drop_first(), ip)
    }
}

/// Whether some record is at address `ip`.
pub open spec fn has_address(records: Seq<PeerView>, ip: Seq<char>) -> bool {
    exists|i: int| 0 <= i < records.len() && (#[trigger] records[i]).ip == ip
}

/// An address is among the addresses of the records exactly where a record is
/// at it.
pub proof fn lemma_addresses(records: Seq<PeerView>, ip: Seq<char>)
    ensures
        addresses(records).contains(ip) <==> has_address(records, ip),
{
    if has_address(records, ip) {
        let i = choose|i: int| 0 <= i < records.len() && (#[trigger] records[i]).ip == ip;
        assert(addresses(records)[i] == ip);
    }
}

/// An address has a key in the registry exactly where a record is at it.
pub proof fn lemma_key_at_address(records: Seq<PeerView>, ip: Seq<char>)
    ensures
        key_at_address(records, ip) is Some <==> has_address(records, ip),
    decreases records.len(),
{
    if records.len() > 0 {
        let rest = records.drop_first();
        lemma_key_at_address(rest, ip);
        if records[0].ip != ip {
            if has_address(records, ip) {
                let i = choose|i: int| 0 <= i < records.len() && (#[trigger] records[i]).ip == ip;
                assert(rest[i - 1].ip == ip);
            }
        }
    }
}

/// Registering one public key twice, under whatever names and addresses,
/// leaves exactly one record with that key, and it is the first one written:
/// the second registration changes nothing.
pub proof fn lemma_upsert_twice(
    records: Seq<PeerView>,
    key: Seq<char>,
    hostname1: Seq<char>,
    ip1: Seq<char>,
    hostname2: Seq<char>,
    ip2: Seq<char>,
)
    requires
        unique_keys(records),
    ensures
        upsert(upsert(records, key, hostname1, ip1), key, hostname2, ip2) == upsert(
            records,
            key,
            hostname1,
            ip1,
        ),
        unique_keys(upsert(records, key, hostname1, ip1)),
        exactly_one_with_key(upsert(records, key, hostname1, ip1), key),
        !has_key(records, key) ==> upsert(records, key, hostname1, ip1).last() == (PeerView {
            pub_key: key,
            hostname: hostname1,
            ip: ip1,
        }),
{
    let once = upsert(records, key, hostname1, ip1);
    if has_key(records, key) {
        let i = choose|i: int| 0 <= i < records.len() && (#[trigger] records[i]).pub_key == key;
        assert(once[i].pub_key == key);
    } else {
        assert(once[records.len() as int].pub_key == key);
    }
}

/// The registry of trusted peers. No two of its records hold the same public
/// key.
pub struct Database {
    peers: Vec<Peer>,
}

impl View for Database {
    type V = Seq<PeerView>;

    closed spec fn view(&self) -> Seq<PeerView> {
        Seq::new(self.peers@.len(), |i: int| self.peers@[i]@)
    }
}

impl Database {
    /// The registry is well formed: no two records hold the same public key.
    pub open spec fn wf(&self) -> bool {
        unique_keys(self@)
    }

    /// An empty registry.
    pub fn new() -> (db: Database)
        ensures
            db@ == Seq::<PeerView>::empty(),
            db.wf(),
    {
        let db = Database { peers: Vec::new() };
        db
    }

    /// The number of records.
    pub fn len(&self) -> (n: usize)
        ensures
            n == self@.len(),
    {
        self.peers.len()
    }

    /// Whether a record holds `pub_key`.
    pub fn contains_key(&self, pub_key: &String) -> (found: bool)
        ensures
            found == has_key(self@, pub_key@),
    {
        let mut i: usize = 0;
        while i < self.peers.len()
            invariant
                i <= self.peers@.len(),
                forall|k: int| 0 <= k < i ==> (#[trigger] self@[k]).pub_key != pub_key@,
            decreases self.peers@.len() - i,
        {
            if self.peers[i].pub_key == *pub_key {
                assert(self@[i as int].pub_key == pub_key@);
                return true;
            }
            i = i + 1;
        }
        false
    }

    /// Registers a peer: writes a record where `pub_key` is new, and changes
    /// nothing where a record holds it already, whatever name and address
    /// come with it. Returns whether a record was written.
    ///
    /// No proof that the peer owns the key is asked for: a peer is trusted
    /// because it answered on the local network and asserted the key.
    pub fn insert_peer(
        &mut self,
        pub_key: &String,
        hostname: &String,
        ip: &String,
    ) -> (inserted: bool)
        requires
            old(self).wf(),
        ensures
            final(self).wf(),
            final(self)@ == upsert(old(self)@, pub_key@, hostname@, ip@),
            inserted == !has_key(old(self)@, pub_key@),
    {
        proof {
            lemma_upsert_twice(self@, pub_key@, hostname@, ip@, hostname@, ip@);
        }
        if self.contains_key(pub_key) {
            return false;
        }
        let peer = Peer { pub_key: pub_key.clone(), hostname: hostname.clone(), ip: ip.clone() };
        self.peers.push(peer);
        assert(self@ =~= upsert(old(self)@, pub_key@, hostname@, ip@));
        true
    }

    /// The addresses of all peers, in the order in which they were
    /// registered: the fan-out of a clipboard change.
    pub fn get_peers_ip(&self) -> (ips: Vec<String>)
        ensures
            ips.deep_view() == addresses(self@),
    {
        let mut ips: Vec<String> = Vec::new();
        let mut i: usize = 0;
        while i < self.peers.len()
            invariant
                i <= self.peers@.len(),
                ips@.len() == i,
                forall|k: int| 0 <= k < i ==> (#[trigger] ips@[k])@ == self@[k].ip,
            decreases self.peers@.len() - i,
        {
            ips.push(self.peers[i].ip.clone());
            i = i + 1;
        }
        ips
    }

    /// The public key registered for the address `ip`: that of the first
    /// record at that address, or `None` where no record is at it.
    pub fn get_peer_pub_key(&self, ip: &String) -> (key: Option<String>)
        ensures
            key.is_some() == has_address(self@, ip@),
            match key {
                Some(k) => key_at_address(self@, ip@) == Some(k@),
                None => key_at_address(self@, ip@) is None,
            },
    {
        proof {
            lemma_key_at_address(self@, ip@);
            assert(self@.skip(0) =~= self@);
        }
        let mut i: usize = 0;
        while i < self.peers.len()
            invariant
                i <= self.peers@.len(),
                key_at_address(self@, ip@) == key_at_address(self@.skip(i as int), ip@),
            decreases self.peers@.len() - i,
        {
            assert(self@.skip(i as int).drop_first() =~= self@.skip(i as int + 1));
            if self.peers[i].ip == *ip {
                return Some(self.peers[i].pub_key.clone());
            }
            i = i + 1;
        }
        None
    }

    /// The record at position `i`, in the order of registration.
    pub fn get(&self, i: usize) -> (peer: &Peer)
        requires
            i < self@.len(),
        ensures
            peer@ == self@[i as int],
    {
        &self.peers[i]
    }
}

} // verus!
