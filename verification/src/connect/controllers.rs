//! The identity echo, the trust handshake and the scan of candidate peers.

use vstd::prelude::*;
use vstd::string::*;
use crate::connect::routes::ConnectPeerArgs;
use crate::utils::communication::CandidateList;
use crate::utils::db::{has_key, upsert, Database, PeerView};
use crate::utils::encryption::{
    base64url_decode,
    base64url_encode,
    encode_verify_key,
    push_char,
};

verus! {

/// The address of the node on the local network: the one that was found, or
/// the loopback address where none was.
pub fn get_local_ip(found: Option<String>) -> (ip: String)
    ensures
        ip@ == match found {
            Some(addr) => addr@,
            None => "127.0.0.1"@,
        },
{
    match found {
        Some(addr) => addr,
        None => String::from_str("127.0.0.1"),
    }
}

/// The identity that the node answers an echo with: its public key in
/// transport text, its host name and its address.
pub fn echo(
    verify_key: &Vec<u8>,
    hostname: String,
    local_ip: String,
) -> (identity: ConnectPeerArgs)
    requires
        verify_key@.len() <= usize::MAX / 2,
    ensures
        identity.pub_key@ == base64url_encode(verify_key@),
        base64url_decode(identity.pub_key@) == Some(verify_key@),
        identity.hostname@ == hostname@,
        identity.ip@ == local_ip@,
{
    ConnectPeerArgs { pub_key: encode_verify_key(verify_key), hostname, ip: local_ip }
}

/// The trust handshake: registers the identity that a peer asserts. A key
/// that the registry holds already keeps its first record, so a peer that
/// comes back under another address is not registered again. Returns whether
/// a record was written.
///
/// The peer is not asked to prove that it owns the key: it is trusted for
/// having answered on the local network.
pub fn connect_peer(db: &mut Database, args: &ConnectPeerArgs) -> (registered: bool)
    requires
        old(db).wf(),
    ensures
        final(db).wf(),
        final(db)@ == upsert(old(db)@, args.pub_key@, args.hostname@, args.ip@),
        registered == !has_key(old(db)@, args.pub_key@),
{
    db.insert_peer(&args.pub_key, &args.hostname, &args.ip)
}

/// The answer of a peer to an echo request.
#[derive(Debug, Clone)]
pub struct ScanPeerResponse {
    pub success: bool,
    pub data: ConnectPeerArgs,
}

/// The address of a candidate's echo endpoint.
pub open spec fn echo_url(ip: Seq<char>) -> Seq<char> {
    "http://"@ + ip + ":9898/echo"@
}

/// The echo endpoints of a list of addresses, in the order of the list.
pub open spec fn echo_urls(ips: Seq<Seq<char>>) -> Seq<Seq<char>> {
    Seq::new(ips.len(), |i: int| echo_url(ips[i]))
}

fn echo_url_of(ip: &str) -> (url: String)
    ensures
        url@ == echo_url(ip@),
{
    String::from_str("http://").concat(ip).concat(":9898/echo")
}

/// Opens a scan fed by discovery: takes every candidate off the list and
/// gives the address of its echo endpoint, in the order in which the
/// candidates were noted. The list is empty afterwards.
pub fn scan_targets(potential_peer_list: &mut CandidateList) -> (urls: Vec<String>)
    ensures
        final(potential_peer_list).wf(),
        final(potential_peer_list)@ == Seq::<Seq<char>>::empty(),
        urls.deep_view() == echo_urls(old(potential_peer_list)@),
{
    let ip_list = potential_peer_list.take();
    let mut urls: Vec<String> = Vec::new();
    let mut i: usize = 0;
    while i < ip_list.len()
        invariant
            i <= ip_list@.len(),
            urls@.len() == i,
            forall|k: int| 0 <= k < i ==> (#[trigger] urls@[k])@ == echo_url(ip_list@[k]@),
        decreases ip_list@.len() - i,
    {
        urls.push(echo_url_of(ip_list[i].as_str()));
        i = i + 1;
    }
    assert(urls.deep_view() =~= echo_urls(ip_list.deep_view()));
    urls
}

/// The decimal digit of a value below 10.
pub open spec fn decimal_digit(d: u8) -> char {
    (48 + d) as char
}

/// The decimal text of a number below 256, without leading zeros.
pub open spec fn decimal_text(n: u8) -> Seq<char> {
    if n < 10 {
        seq![decimal_digit(n)]
    } else if n < 100 {
        seq![decimal_digit(n / 10), decimal_digit(n % 10)]
    } else {
        seq![decimal_digit(n / 100), decimal_digit(n / 10 % 10), decimal_digit(n % 10)]
    }
}

/// The part of an address that its /24 subnet shares: the text up to and
/// with the last dot, or the empty text where the address has no dot.
pub open spec fn subnet_prefix(ip: Seq<char>) -> Seq<char>
    decreases ip.len(),
{
    if ip.len() == 0 || ip.last() == '.' {
        ip
    } else {
        subnet_prefix(ip.drop_last())
    }
}

/// The addresses of the hosts 1 to `upto` in the subnet of `local_ip`, in
/// rising order, without `local_ip` itself.
pub open spec fn sweep_upto(local_ip: Seq<char>, upto: int) -> Seq<Seq<char>>
    decreases upto,
{
    if upto <= 0 {
        Seq::empty()
    } else {
        let earlier = sweep_upto(local_ip, upto - 1);
        let addr = subnet_prefix(local_ip) + decimal_text(upto as u8);
        if addr == local_ip {
            earlier
        } else {
            earlier.push(addr)
        }
    }
}

/// The addresses that a sweep of the node's own /24 subnet asks: the hosts 1
/// to 254 without the node itself, or none where the node's address has no
/// dot in it.
pub open spec fn subnet_sweep(local_ip: Seq<char>) -> Seq<Seq<char>> {
    if subnet_prefix(local_ip).len() == 0 {
        Seq::empty()
    } else {
        sweep_upto(local_ip, 254)
    }
}

/// Two numbers with the same decimal text are the same number.
pub proof fn lemma_decimal_text_distinct(a: u8, b: u8)
    requires
        a != b,
    ensures
        decimal_text(a) != decimal_text(b),
{
    let x = decimal_text(a);
    let y = decimal_text(b);
    if x.len() == y.len() {
        if a < 10 {
            assert(x[0] != y[0]);
        } else if a < 100 {
            assert(x[0] != y[0] || x[1] != y[1]);
        } else {
            assert(x[0] != y[0] || x[1] != y[1] || x[2] != y[2]);
        }
    }
}

/// A sweep never asks the node itself and asks no address twice: each of its
/// addresses is the subnet's prefix followed by one host number of its own.
pub proof fn lemma_sweep_leaves_self_out(local_ip: Seq<char>, upto: int)
    requires
        upto <= 255,
    ensures
        sweep_upto(local_ip, upto).len() <= if upto < 0 {
            0
        } else {
            upto
        },
        !sweep_upto(local_ip, upto).contains(local_ip),
        sweep_upto(local_ip, upto).no_duplicates(),
        forall|i: int|
            0 <= i < sweep_upto(local_ip, upto).len() ==> exists|host: u8|
                1 <= host <= upto && #[trigger] sweep_upto(local_ip, upto)[i] == subnet_prefix(
                    local_ip,
                ) + #[trigger] decimal_text(host),
    decreases upto,
{
    if upto > 0 {
        lemma_sweep_leaves_self_out(local_ip, upto - 1);
        let earlier = sweep_upto(local_ip, upto - 1);
        let all = sweep_upto(local_ip, upto);
        let prefix = subnet_prefix(local_ip);
        let last = prefix + decimal_text(upto as u8);
        assert forall|i: int| 0 <= i < all.len() implies exists|host: u8|
            1 <= host <= upto && #[trigger] all[i] == prefix + #[trigger] decimal_text(host) by {
            if i < earlier.len() {
                let host = choose|host: u8|
                    1 <= host <= upto - 1 && #[trigger] earlier[i] == prefix
                        + #[trigger] decimal_text(host);
                assert(1 <= host <= upto && all[i] == prefix + decimal_text(host));
            } else {
                assert(all[i] == prefix + decimal_text(upto as u8));
            }
        }
        assert forall|i: int| 0 <= i < earlier.len() implies earlier[i] != last by {
            let host = choose|host: u8|
                1 <= host <= upto - 1 && #[trigger] earlier[i] == prefix + #[trigger] decimal_text(
                    host,
                );
            lemma_decimal_text_distinct(host, upto as u8);
            if earlier[i] == last {
                assert(earlier[i].subrange(prefix.len() as int, earlier[i].len() as int)
                    =~= decimal_text(host));
                assert(last.subrange(prefix.len() as int, last.len() as int) =~= decimal_text(
                    upto as u8,
                ));
            }
        }
    }
}

fn decimal(n: u8) -> (text: String)
    ensures
        text@ == decimal_text(n),
{
    let mut text = String::new();
    if n >= 100 {
        push_char(&mut text, (48u8 + n / 100) as char);
    }
    if n >= 10 {
        push_char(&mut text, (48u8 + n / 10 % 10) as char);
    }
    push_char(&mut text, (48u8 + n % 10) as char);
    text
}

fn subnet_prefix_of(ip: &str) -> (prefix: String)
    ensures
        prefix@ == subnet_prefix(ip@),
{
    let mut end: usize = ip.unicode_len();
    assert(ip@.subrange(0, end as int) =~= ip@);
    while end > 0 && ip.get_char(end - 1) != '.'
        invariant
            end <= ip@.len(),
            subnet_prefix(ip@) == subnet_prefix(ip@.subrange(0, end as int)),
        decreases end,
    {
        assert(ip@.subrange(0, end as int).drop_last() =~= ip@.subrange(0, end - 1));
        end = end - 1;
    }
    String::from_str(ip.substring_char(0, end))
}

/// Opens a scan by subnet sweep, for a network without multicast: gives the
/// echo endpoint of every host from 1 to 254 in the /24 subnet of the node's
/// own address, in rising order, each once, and leaves the node itself out.
/// Where the address has no dot in it there is no subnet to sweep, and
/// nothing to ask.
pub fn subnet_sweep_targets(local_ip: &String) -> (urls: Vec<String>)
    ensures
        urls.deep_view() == echo_urls(subnet_sweep(local_ip@)),
        urls@.len() <= 254,
        !subnet_sweep(local_ip@).contains(local_ip@),
        subnet_sweep(local_ip@).no_duplicates(),
{
    let mut urls: Vec<String> = Vec::new();
    let prefix = subnet_prefix_of(local_ip.as_str());
    proof {
        lemma_sweep_leaves_self_out(local_ip@, 254);
    }
    if prefix.as_str().unicode_len() == 0 {
        return urls;
    }
    let mut host: u8 = 0;
    while host < 254
        invariant
            host <= 254,
            prefix@ == subnet_prefix(local_ip@),
            urls.deep_view() =~= echo_urls(sweep_upto(local_ip@, host as int)),
        decreases 254 - host,
    {
        host = host + 1;
        let addr = prefix.clone().concat(decimal(host).as_str());
        if addr != *local_ip {
            let ghost before = urls.deep_view();
            urls.push(echo_url_of(addr.as_str()));
            assert(urls.deep_view() =~= before.push(echo_url(addr@)));
        }
    }
    urls
}

/// The identities that a scan found: those of the answers that came, each
/// once, in the order of their first answer. An answer that did not come is
/// `None`.
pub open spec fn scan_result(answers: Seq<Option<PeerView>>) -> Seq<PeerView>
    decreases answers.len(),
{
    if answers.len() == 0 {
        Seq::empty()
    } else {
        let earlier = scan_result(answers.drop_last());
        match answers.last() {
            Some(identity) => if earlier.contains(identity) {
                earlier
            } else {
                earlier.push(identity)
            },
            None => earlier,
        }
    }
}

/// A scan's result holds no identity twice, and holds exactly the identities
/// that some answer gave.
pub proof fn lemma_scan_result(answers: Seq<Option<PeerView>>)
    ensures
        scan_result(answers).no_duplicates(),
        forall|identity: PeerView| #[trigger]
            scan_result(answers).contains(identity) <==> answers.contains(Some(identity)),
    decreases answers.len(),
{
    if answers.len() > 0 {
        let front = answers.drop_last();
        let earlier = scan_result(front);
        let all = scan_result(answers);
        lemma_scan_result(front);
        assert forall|identity: PeerView| #[trigger]
            all.contains(identity) <==> answers.contains(Some(identity)) by {
            if answers.contains(Some(identity)) {
                let i = choose|i: int| 0 <= i < answers.len() && answers[i] == Some(identity);
                if i < front.len() {
                    assert(front[i] == Some(identity));
                    assert(earlier.contains(identity));
                    let j = choose|j: int| 0 <= j < earlier.len() && earlier[j] == identity;
                    assert(all[j] == identity);
                } else if !earlier.contains(identity) {
                    assert(all[earlier.len() as int] == identity);
                }
            }
            if all.contains(identity) {
                let j = choose|j: int| 0 <= j < all.len() && all[j] == identity;
                if j < earlier.len() {
                    assert(earlier.contains(identity));
                }
            }
        }
    }
}

/// The views of the answers to a scan.
pub open spec fn answer_views(answers: Seq<Option<ScanPeerResponse>>) -> Seq<Option<PeerView>> {
    Seq::new(
        answers.len(),
        |i: int|
            match answers[i] {
                Some(answer) => Some(answer.data@),
                None => None,
            },
    )
}

/// The identities in a list.
pub open spec fn identity_views(identities: Seq<ConnectPeerArgs>) -> Seq<PeerView> {
    Seq::new(identities.len(), |i: int| identities[i]@)
}

/// Closes a scan: gathers the identities out of the answers to the echo
/// requests, one answer per candidate, `None` for a request that timed out,
/// failed or was answered with something else than an identity. Such
/// candidates are left out; they never fail the scan. No identity is in the
/// result twice. The registry is not touched.
pub fn scan(answers: &Vec<Option<ScanPeerResponse>>) -> (found: Vec<ConnectPeerArgs>)
    ensures
        identity_views(found@) == scan_result(answer_views(answers@)),
        identity_views(found@).no_duplicates(),
{
    let mut found: Vec<ConnectPeerArgs> = Vec::new();
    let ghost all = answer_views(answers@);
    let mut i: usize = 0;
    while i < answers.len()
        invariant
            i <= answers@.len(),
            all == answer_views(answers@),
            identity_views(found@) == scan_result(all.subrange(0, i as int)),
        decreases answers@.len() - i,
    {
        assert(all.subrange(0, i + 1).drop_last() =~= all.subrange(0, i as int));
        match &answers[i] {
            Some(response) => {
                if !holds_identity(&found, &response.data) {
                    let identity = ConnectPeerArgs {
                        pub_key: response.data.pub_key.clone(),
                        hostname: response.data.hostname.clone(),
                        ip: response.data.ip.clone(),
                    };
                    found.push(identity);
                }
            },
            None => {},
        }
        i = i + 1;
    }
    proof {
        assert(all.subrange(0, i as int) =~= all);
        lemma_scan_result(all);
    }
    found
}

/// Whether `identities` holds `identity`.
fn holds_identity(identities: &Vec<ConnectPeerArgs>, identity: &ConnectPeerArgs) -> (found: bool)
    ensures
        found == identity_views(identities@).contains(identity@),
{
    let mut i: usize = 0;
    while i < identities.len()
        invariant
            i <= identities@.len(),
            forall|k: int| 0 <= k < i ==> #[trigger] identity_views(identities@)[k] != identity@,
        decreases identities@.len() - i,
    {
        let other = &identities[i];
        if other.pub_key == identity.pub_key && other.hostname == identity.hostname && other.ip
            == identity.ip {
            assert(identity_views(identities@)[i as int] == identity@);
            return true;
        }
        i = i + 1;
    }
    false
}

} // verus!
