//! Discovery over multicast and the outbound half of synchronisation.
//!
//! A node answers probes with a liveness reply and notes the address of every
//! node whose liveness reply it hears. The two kinds of datagram are told
//! apart by their bytes alone: each is the digest of a fixed tag. The digests
//! are no secret and no proof of anything; trust comes later, from signatures.

use vstd::prelude::*;
use vstd::string::*;
use crate::utils::db::{addresses, Database};
use crate::utils::encryption::{
    digest_text,
    ed25519_public_key,
    get_digest,
    message_fits,
    sign_message,
    signature_text,
    utf8,
};
use crate::utils::error::Error;

verus! {

/// The multicast group that discovery datagrams travel on.
pub const MULTICAST_GROUP: &'static str = "239.0.0.1";

/// The UDP port of the discovery datagrams.
pub const MULTICAST_PORT: u16 = 23235;

/// The tag whose digest is the probe: "is anyone listening".
pub open spec fn probe_tag() -> Seq<char> {
    "resk"@
}

/// The tag whose digest is the liveness reply: "I am here".
pub open spec fn liveness_tag() -> Seq<char> {
    "yes"@
}

/// The list after a liveness reply from `addr`: `addr` at the end where it is
/// new, the list as it was where it is known.
pub open spec fn observe(list: Seq<Seq<char>>, addr: Seq<char>) -> Seq<Seq<char>> {
    if list.contains(addr) {
        list
    } else {
        list.push(addr)
    }
}

/// The list after liveness replies from `replies`, one after the other.
pub open spec fn observe_all(list: Seq<Seq<char>>, replies: Seq<Seq<char>>) -> Seq<Seq<char>>
    decreases replies.len(),
{
    if replies.len() == 0 {
        list
    } else {
        observe(observe_all(list, replies.drop_last()), replies.last())
    }
}

/// Noting an address keeps a list without duplicates free of them, keeps what
/// it held, and leaves the address in it.
pub proof fn lemma_observe(list: Seq<Seq<char>>, addr: Seq<char>)
    requires
        list.no_duplicates(),
    ensures
        observe(list, addr).no_duplicates(),
        observe(list, addr).contains(addr),
        forall|a: Seq<char>| list.contains(a) ==> #[trigger] observe(list, addr).contains(a),
        forall|a: Seq<char>| #[trigger]
            observe(list, addr).contains(a) ==> list.contains(a) || a == addr,
{
    let after = observe(list, addr);
    if !list.contains(addr) {
        assert(after[list.len() as int] == addr);
        assert forall|a: Seq<char>| list.contains(a) implies #[trigger] after.contains(a) by {
            let i = choose|i: int| 0 <= i < list.len() && list[i] == a;
            assert(after[i] == a);
        }
    }
}

/// Whatever liveness replies arrive and in whatever order, a candidate list
/// that starts without duplicates never holds an address twice, and holds
/// every address that replied.
pub proof fn lemma_candidates_stay_distinct(list: Seq<Seq<char>>, replies: Seq<Seq<char>>)
    requires
        list.no_duplicates(),
    ensures
        observe_all(list, replies).no_duplicates(),
        forall|a: Seq<char>| list.contains(a) ==> #[trigger] observe_all(list, replies).contains(a),
        forall|i: int|
            0 <= i < replies.len() ==> observe_all(list, replies).contains(#[trigger] replies[i]),
        forall|a: Seq<char>| #[trigger]
            observe_all(list, replies).contains(a) ==> list.contains(a) || replies.contains(a),
    decreases replies.len(),
{
    if replies.len() > 0 {
        let earlier = replies.drop_last();
        let before = observe_all(list, earlier);
        lemma_candidates_stay_distinct(list, earlier);
        lemma_observe(before, replies.last());
        let after = observe_all(list, replies);
        assert forall|i: int| 0 <= i < replies.len() implies after.contains(
            #[trigger] replies[i],
        ) by {
            if i < earlier.len() {
                assert(before.contains(earlier[i]));
            }
        }
    }
}

/// The addresses that answered a probe and have not been scanned yet. No
/// address is in the list twice.
pub struct CandidateList {
    addrs: Vec<String>,
}

impl View for CandidateList {
    type V = Seq<Seq<char>>;

    closed spec fn view(&self) -> Seq<Seq<char>> {
        self.addrs.deep_view()
    }
}

impl CandidateList {
    /// The list is well formed: no address is in it twice.
    pub open spec fn wf(&self) -> bool {
        self@.no_duplicates()
    }

    /// An empty list.
    pub fn new() -> (list: CandidateList)
        ensures
            list.wf(),
            list@ == Seq::<Seq<char>>::empty(),
    {
        let list = CandidateList { addrs: Vec::new() };
        list
    }

    /// The number of addresses.
    pub fn len(&self) -> (n: usize)
        ensures
            n == self@.len(),
    {
        self.addrs.len()
    }

    /// Whether `addr` is in the list.
    pub fn contains(&self, addr: &String) -> (found: bool)
        ensures
            found == self@.contains(addr@),
    {
        let mut i: usize = 0;
        while i < self.addrs.len()
            invariant
                i <= self.addrs@.len(),
                forall|k: int| 0 <= k < i ==> #[trigger] self@[k] != addr@,
            decreases self.addrs@.len() - i,
        {
            if self.addrs[i] == *addr {
                assert(self@[i as int] == addr@);
                return true;
            }
            i = i + 1;
        }
        false
    }

    /// Notes an address that sent a liveness reply: appends it where it is
    /// new, changes nothing where the list holds it. Returns whether the
    /// address was new.
    pub fn insert(&mut self, addr: String) -> (added: bool)
        requires
            old(self).wf(),
        ensures
            final(self).wf(),
            final(self)@ == observe(old(self)@, addr@),
            added == !old(self)@.contains(addr@),
    {
        proof {
            lemma_observe(self@, addr@);
        }
        if self.contains(&addr) {
            return false;
        }
        self.addrs.push(addr);
        assert(self@ =~= old(self)@.push(addr@));
        true
    }

    /// Hands the candidates over to a scan and empties the list.
    pub fn take(&mut self) -> (taken: Vec<String>)
        ensures
            final(self).wf(),
            final(self)@ == Seq::<Seq<char>>::empty(),
            taken.deep_view() == old(self)@,
    {
        let mut taken: Vec<String> = Vec::new();
        core::mem::swap(&mut taken, &mut self.addrs);
        taken
    }
}

/// The digest that a probe datagram carries.
pub fn probe_digest() -> (digest: String)
    ensures
        digest@ == digest_text(probe_tag()),
{
    proof {
        lemma_tags_fit();
    }
    get_digest("resk")
}

/// The digest that a liveness reply carries.
pub fn liveness_digest() -> (digest: String)
    ensures
        digest@ == digest_text(liveness_tag()),
{
    proof {
        lemma_tags_fit();
    }
    get_digest("yes")
}

proof fn lemma_tags_fit()
    ensures
        message_fits(probe_tag()),
        message_fits(liveness_tag()),
{
    reveal_strlit("resk");
    reveal_strlit("yes");
    vstd::utf8::is_ascii_chars_encode_utf8("resk"@);
    vstd::utf8::is_ascii_chars_encode_utf8("yes"@);
}

/// Whether two byte strings are equal.
fn same_bytes(a: &[u8], b: &[u8]) -> (same: bool)
    ensures
        same == (a@ == b@),
{
    if a.len() != b.len() {
        return false;
    }
    let mut i: usize = 0;
    while i < a.len()
        invariant
            a@.len() == b@.len(),
            i <= a@.len(),
            forall|k: int| 0 <= k < i ==> a@[k] == b@[k],
        decreases a@.len() - i,
    {
        if a[i] != b[i] {
            return false;
        }
        i = i + 1;
    }
    assert(a@ =~= b@);
    true
}

/// Whether a datagram is a probe: its bytes are those of the probe digest.
pub open spec fn is_probe(datagram: Seq<u8>) -> bool {
    datagram == utf8(digest_text(probe_tag()))
}

/// Whether a datagram is a liveness reply: its bytes are those of the
/// liveness digest.
pub open spec fn is_liveness(datagram: Seq<u8>) -> bool {
    datagram == utf8(digest_text(liveness_tag()))
}

/// One turn of the discovery responder: what a node does with a datagram that
/// came from `sender_ip` on the multicast group.
///
/// A datagram from the node's own address is ignored. A probe from another
/// node is answered: the result is the liveness digest, to be sent back to
/// the sender. A liveness reply from another node puts the sender on the
/// candidate list, once. Any other datagram is dropped.
pub fn multicast_server(
    potential_peer_list: &mut CandidateList,
    datagram: &[u8],
    sender_ip: &String,
    local_ip: &String,
) -> (reply: Option<String>)
    requires
        old(potential_peer_list).wf(),
    ensures
        final(potential_peer_list).wf(),
        reply is Some <==> sender_ip@ != local_ip@ && is_probe(datagram@),
        reply is Some ==> reply->Some_0@ == digest_text(liveness_tag()),
        final(potential_peer_list)@ == if sender_ip@ != local_ip@ && is_liveness(datagram@) {
            observe(old(potential_peer_list)@, sender_ip@)
        } else {
            old(potential_peer_list)@
        },
{
    if *sender_ip == *local_ip {
        return None;
    }
    let probe = probe_digest();
    let liveness = liveness_digest();
    if same_bytes(datagram, liveness.as_str().as_bytes()) {
        potential_peer_list.insert(sender_ip.clone());
    }
    if same_bytes(datagram, probe.as_str().as_bytes()) {
        Some(liveness)
    } else {
        None
    }
}

/// One signed clipboard update on its way to one peer.
#[derive(Debug, Clone)]
pub struct PeerUpdate {
    pub peer: String,
    pub url: String,
    pub clipboard: String,
    pub signature: String,
}

/// The address of a peer's update endpoint.
pub open spec fn update_url(peer: Seq<char>) -> Seq<char> {
    "http://"@ + peer + ":9898/update"@
}

/// What became of one delivery.
#[derive(Debug, Clone, Copy, PartialEq, Eq, Structural)]
pub enum Delivery {
    /// The peer took the update.
    Shared,
    /// The peer answered, and refused.
    Refused,
    /// The peer answered with something that is no answer to an update.
    Malformed,
    /// The peer did not answer in time.
    NoResponse,
}

/// The member `name` of the JSON object that `text` holds, written as
/// compact JSON text, or `None` where `text` is no JSON, holds no object, or
/// the object has no such member.
pub uninterp spec fn json_member(text: Seq<char>, name: Seq<char>) -> Option<Seq<char>>;

/// `serde_json::from_str` to a `serde_json::Value`, then `Value::get` with
/// `name` and the member's `to_string`. The contract names the outcome
/// `json_member`.
#[verifier::external_body]
fn json_member_of(text: &str, name: &str) -> (member: Option<String>)
    ensures
        match member {
            Some(m) => json_member(text@, name@) == Some(m@),
            None => json_member(text@, name@) is None,
        },
{
    match serde_json::from_str::<serde_json::Value>(text) {
        Ok(value) => match value.get(name) {
            Some(member) => Some(member.to_string()),
            None => None,
        },
        Err(_) => None,
    }
}

/// The verdict on an answer, given its data: only the data `"OK"` is a
/// success, and an answer without data is malformed.
pub open spec fn verdict(data: Option<Seq<char>>) -> Delivery {
    match data {
        None => Delivery::Malformed,
        Some(d) => if d == "\"OK\""@ {
            Delivery::Shared
        } else {
            Delivery::Refused
        },
    }
}

/// Judges an answer by its data, the `data` member of the answer as JSON
/// text, or `None` where the answer has none.
pub fn judge_answer(data: Option<&String>) -> (outcome: Delivery)
    ensures
        outcome == verdict(
            match data {
                Some(d) => Some(d@),
                None => None,
            },
        ),
{
    match data {
        None => Delivery::Malformed,
        Some(d) => {
            if *d == String::from_str("\"OK\"") {
                Delivery::Shared
            } else {
                Delivery::Refused
            }
        },
    }
}

/// Judges one delivery by what came back from the peer: `None` where nothing
/// came in time, else the body of the answer. An answer counts as a success
/// only where it is a JSON object whose member `data` is the text `OK`.
pub fn delivery_outcome(reply: Option<&String>) -> (outcome: Delivery)
    ensures
        outcome == match reply {
            None => Delivery::NoResponse,
            Some(body) => verdict(json_member(body@, "data"@)),
        },
{
    match reply {
        None => Delivery::NoResponse,
        Some(body) => {
            let data = json_member_of(body.as_str(), "data");
            judge_answer(data.as_ref())
        },
    }
}

/// Prepares the broadcast of a clipboard change: signs the content once with
/// the node's key and addresses one update to every registered peer, in the
/// order of the registry.
///
/// It fails only where signing fails. Each update is then sent on its own: no
/// delivery waits for another or fails with it.
pub fn update_peers(
    db: &Database,
    sign_key: &Vec<u8>,
    clipboard: String,
) -> (r: Result<Vec<PeerUpdate>, Error>)
    ensures
        r is Ok <==> message_fits(clipboard@) && ed25519_public_key(sign_key@) is Some,
        r is Ok ==> r->Ok_0@.len() == db@.len(),
        r is Ok ==> forall|i: int|
            #![trigger r->Ok_0@[i]]
            0 <= i < db@.len() ==> {
                &&& r->Ok_0@[i].peer@ == db@[i].ip
                &&& r->Ok_0@[i].url@ == update_url(db@[i].ip)
                &&& r->Ok_0@[i].clipboard@ == clipboard@
                &&& r->Ok_0@[i].signature@ == signature_text(sign_key@, clipboard@)
            },
        r is Err ==> (if message_fits(clipboard@) {
            r->Err_0 is KeyRejectedError
        } else {
            r->Err_0 is Generic
        }),
{
    let peers_ip = db.get_peers_ip();
    let signature = match sign_message(sign_key, &clipboard) {
        Ok(signature) => signature,
        Err(e) => {
            return Err(e);
        },
    };
    let mut updates: Vec<PeerUpdate> = Vec::new();
    let mut i: usize = 0;
    assert(addresses(db@).len() == db@.len());
    while i < peers_ip.len()
        invariant
            i <= peers_ip@.len(),
            peers_ip@.len() == db@.len(),
            peers_ip.deep_view() == addresses(db@),
            updates@.len() == i,
            signature@ == signature_text(sign_key@, clipboard@),
            forall|k: int|
                #![trigger updates@[k]]
                0 <= k < i ==> {
                    &&& updates@[k].peer@ == db@[k].ip
                    &&& updates@[k].url@ == update_url(db@[k].ip)
                    &&& updates@[k].clipboard@ == clipboard@
                    &&& updates@[k].signature@ == signature_text(sign_key@, clipboard@)
                },
        decreases peers_ip@.len() - i,
    {
        let peer = peers_ip[i].clone();
        assert(addresses(db@)[i as int] == db@[i as int].ip);
        let url = String::from_str("http://").concat(peer.as_str()).concat(":9898/update");
        let update = PeerUpdate {
            peer,
            url,
            clipboard: clipboard.clone(),
            signature: signature.clone(),
        };
        updates.push(update);
        i = i + 1;
    }
    Ok(updates)
}

} // verus!
