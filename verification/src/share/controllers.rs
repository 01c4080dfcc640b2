//! The inbound half of synchronisation: an update is applied only where it
//! comes from a registered address and carries a signature that verifies
//! under the key registered for that address.

use vstd::prelude::*;
use vstd::string::*;
use crate::share::routes::UpdateArgs;
use crate::utils::db::{has_address, key_at_address, lemma_key_at_address, Database, PeerView};
use crate::utils::encryption::{signature_accepted, verify_message};
use crate::utils::error::Error;

verus! {

/// Whether the registry `records` knows the sender of an update.
pub open spec fn sender_known(records: Seq<PeerView>, remote_ip: Option<Seq<char>>) -> bool {
    remote_ip is Some && has_address(records, remote_ip->Some_0)
}

/// Whether an update is accepted: its sender is known, and its signature is
/// accepted for its content under the key registered for the sender's
/// address.
pub open spec fn update_accepted(
    records: Seq<PeerView>,
    remote_ip: Option<Seq<char>>,
    content: Seq<char>,
    signature: Seq<char>,
) -> bool {
    &&& sender_known(records, remote_ip)
    &&& key_at_address(records, remote_ip->Some_0) is Some
    &&& signature_accepted(key_at_address(records, remote_ip->Some_0)->Some_0, signature, content)
}

/// Puts `content` on the clipboard.
pub fn set_clipboard(clipboard: &mut String, content: &String)
    ensures
        final(clipboard)@ == content@,
{
    *clipboard = content.clone();
}

/// Handles an inbound update, with the content of the local clipboard in
/// `clipboard`.
///
/// An update from an address without a record, or without an address, is
/// rejected with `PeerNotFound`, whatever its signature. An update from a
/// registered address is answered `OK` and overwrites the clipboard where its
/// signature is accepted, and is answered `Failed to verify signature` and
/// leaves the clipboard as it was where it is not. The clipboard is never
/// changed in part.
pub fn update(
    db: &Database,
    args: &UpdateArgs,
    clipboard: &mut String,
) -> (r: Result<String, Error>)
    ensures
        r is Ok <==> sender_known(db@, remote_view(args)),
        r is Err ==> r->Err_0 is PeerNotFound && final(clipboard)@ == old(clipboard)@,
        r is Ok ==> (if update_accepted(
            db@,
            remote_view(args),
            args.clipboard@,
            args.signature@,
        ) {
            r->Ok_0@ == "OK"@ && final(clipboard)@ == args.clipboard@
        } else {
            r->Ok_0@ == "Failed to verify signature"@ && final(clipboard)@ == old(clipboard)@
        }),
{
    let remote_ip = match &args.remote_ip {
        Some(ip) => ip,
        None => {
            return Err(Error::PeerNotFound(String::from_str("no sender address")));
        },
    };
    proof {
        lemma_key_at_address(db@, remote_ip@);
    }
    let peer_pub_key = match db.get_peer_pub_key(remote_ip) {
        Some(key) => key,
        None => {
            return Err(Error::PeerNotFound(remote_ip.clone()));
        },
    };
    match verify_message(&peer_pub_key, &args.signature, &args.clipboard) {
        Ok(()) => {
            set_clipboard(clipboard, &args.clipboard);
            Ok(String::from_str("OK"))
        },
        Err(_) => Ok(String::from_str("Failed to verify signature")),
    }
}

/// The address that an update claims to come from, as plain text.
pub open spec fn remote_view(args: &UpdateArgs) -> Option<Seq<char>> {
    match args.remote_ip {
        Some(ip) => Some(ip@),
        None => None,
    }
}

} // verus!
