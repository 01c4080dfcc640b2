//! The handshake request and the rule on who may ask for it.

use vstd::prelude::*;
use vstd::string::*;
use crate::connect::controllers;
use crate::utils::db::{upsert, Database, PeerView};
use crate::utils::general::Response;

verus! {

/// The identity that a node asserts: its public key in transport text, its
/// host name and its address. It is what a node answers to an echo and what a
/// handshake registers.
#[derive(Debug, Clone)]
pub struct ConnectPeerArgs {
    pub pub_key: String,
    pub hostname: String,
    pub ip: String,
}

impl View for ConnectPeerArgs {
    type V = PeerView;

    open spec fn view(&self) -> PeerView {
        PeerView { pub_key: self.pub_key@, hostname: self.hostname@, ip: self.ip@ }
    }
}

/// Whether a request from `remote_ip` comes from the node itself: from its
/// own address or from the loopback address.
pub open spec fn local_request(remote_ip: Seq<char>, local_ip: Seq<char>) -> bool {
    remote_ip == local_ip || remote_ip == "127.0.0.1"@
}

/// Decides whether a request for a handshake or a scan is let in: only the
/// node itself may ask.
pub fn is_local_request(remote_ip: &String, local_ip: &String) -> (allowed: bool)
    ensures
        allowed == local_request(remote_ip@, local_ip@),
{
    *remote_ip == *local_ip || *remote_ip == String::from_str("127.0.0.1")
}

/// The handshake request. A request that does not come from the node itself
/// is refused with status 403 and leaves the registry as it was; any other
/// registers the asserted identity and succeeds.
pub fn connect_peer(
    db: &mut Database,
    remote_ip: &String,
    local_ip: &String,
    args: &ConnectPeerArgs,
) -> (response: Response)
    requires
        old(db).wf(),
    ensures
        final(db).wf(),
        response.success == local_request(remote_ip@, local_ip@),
        local_request(remote_ip@, local_ip@) ==> {
            &&& response.status == 200
            &&& response.content@ == "connected"@
            &&& final(db)@ == upsert(old(db)@, args.pub_key@, args.hostname@, args.ip@)
        },
        !local_request(remote_ip@, local_ip@) ==> {
            &&& response.status == 403
            &&& response.content@ == "Forbiden"@
            &&& final(db)@ == old(db)@
        },
{
    if !is_local_request(remote_ip, local_ip) {
        return Response::failure(403, String::from_str("Forbiden"));
    }
    controllers::connect_peer(db, args);
    Response::success(String::from_str("connected"))
}

} // verus!
