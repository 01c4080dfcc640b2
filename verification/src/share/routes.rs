//! The update request: who may send one, and what it is answered with.

use vstd::prelude::*;
use vstd::string::*;
use crate::share::controllers;
use crate::share::controllers::update_accepted;
use crate::utils::db::{has_address, lemma_addresses, lemma_key_at_address, Database};
use crate::utils::general::Response;

verus! {

/// A clipboard update as it arrives: the content, its signature in transport
/// text and, once known, the address that it came from.
#[derive(Debug, Clone)]
pub struct UpdateArgs {
    pub clipboard: String,
    pub signature: String,
    pub remote_ip: Option<String>,
}

/// The update request from the address `remote_ip`, with the content of the
/// local clipboard in `clipboard`.
///
/// A sender that the registry does not know is refused with status 403,
/// whatever it signed. For a sender that it knows, the signature is checked
/// with the key registered for the address: a valid one puts the content on
/// the clipboard and is answered `OK`, any other leaves the clipboard alone
/// and is answered with the reason. Either way the answer has status 200.
/// Whatever address the update itself names is overwritten by `remote_ip`.
pub fn update(
    db: &Database,
    remote_ip: &String,
    args: UpdateArgs,
    clipboard: &mut String,
) -> (response: Response)
    ensures
        !has_address(db@, remote_ip@) ==> {
            &&& response.status == 403
            &&& !response.success
            &&& response.content@ == "Forbiden"@
            &&& final(clipboard)@ == old(clipboard)@
        },
        has_address(db@, remote_ip@) ==> response.status == 200 && response.success,
        has_address(db@, remote_ip@) && update_accepted(
            db@,
            Some(remote_ip@),
            args.clipboard@,
            args.signature@,
        ) ==> response.content@ == "OK"@ && final(clipboard)@ == args.clipboard@,
        has_address(db@, remote_ip@) && !update_accepted(
            db@,
            Some(remote_ip@),
            args.clipboard@,
            args.signature@,
        ) ==> response.content@ == "Failed to verify signature"@ && final(clipboard)@ == old(
            clipboard,
        )@,
{
    let peer_ip_list = db.get_peers_ip();
    proof {
        lemma_addresses(db@, remote_ip@);
    }
    if !holds_address(&peer_ip_list, remote_ip) {
        return Response::failure(403, String::from_str("Forbiden"));
    }
    proof {
        lemma_key_at_address(db@, remote_ip@);
    }
    let mut args = args;
    args.remote_ip = Some(remote_ip.clone());
    match controllers::update(db, &args, clipboard) {
        Ok(data) => Response::success(data),
        Err(e) => Response::failure(500, e.to_text()),
    }
}

/// Whether `addr` is among `addrs`.
fn holds_address(addrs: &Vec<String>, addr: &String) -> (found: bool)
    ensures
        found == addrs.deep_view().contains(addr@),
{
    let mut i: usize = 0;
    while i < addrs.len()
        invariant
            i <= addrs@.len(),
            forall|k: int| 0 <= k < i ==> #[trigger] addrs.deep_view()[k] != addr@,
        decreases addrs@.len() - i,
    {
        if addrs[i] == *addr {
            assert(addrs.deep_view()[i as int] == addr@);
            return true;
        }
        i = i + 1;
    }
    false
}

} // verus!
