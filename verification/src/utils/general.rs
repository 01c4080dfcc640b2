//! Answers to requests, the places of a node's files, and the address that a
//! request came from.

use vstd::prelude::*;
use vstd::string::*;
use crate::utils::encryption::{generate_keys, IdentityKeyPair};
use crate::utils::error::Error;

verus! {

/// The outcome of a request, before it is put on the wire: the HTTP status,
/// whether the request succeeded, and the data of a success or the message of
/// a failure.
#[derive(Debug)]
pub struct Response {
    pub status: u16,
    pub success: bool,
    pub content: String,
}

/// The HTTP status that a failure code is answered with: 400 and 403 as they
/// are, everything else as 500.
pub open spec fn failure_status(code: u16) -> u16 {
    if code == 400 || code == 403 {
        code
    } else {
        500
    }
}

impl Response {
    /// A success with its data, status 200.
    pub fn success(data: String) -> (response: Response)
        ensures
            response.status == 200,
            response.success,
            response.content@ == data@,
    {
        Response { status: 200, success: true, content: data }
    }

    /// A failure with its message. A code other than 400 and 403 is answered
    /// as an internal error, 500.
    pub fn failure(code: u16, msg: String) -> (response: Response)
        ensures
            response.status == failure_status(code),
            !response.success,
            response.content@ == msg@,
    {
        let status: u16 = match code {
            400 => 400,
            403 => 403,
            500 => 500,
            _ => 500,
        };
        Response { status, success: false, content: msg }
    }
}

/// Makes sure that the node has an identity: where either key file is
/// missing, a fresh key pair is generated for the caller to store, and where
/// both are there, nothing is generated.
pub fn check_keys(
    pub_key_exists: bool,
    private_key_exists: bool,
) -> (r: Result<Option<IdentityKeyPair>, Error>)
    ensures
        pub_key_exists && private_key_exists ==> r is Ok && r->Ok_0 is None,
        !(pub_key_exists && private_key_exists) ==> match r {
            Ok(fresh) => fresh is Some && fresh->Some_0.wf(),
            Err(e) => e is UnspecifiedRingError || e is KeyRejectedError,
        },
{
    if !pub_key_exists || !private_key_exists {
        match generate_keys() {
            Ok(pair) => Ok(Some(pair)),
            Err(e) => Err(e),
        }
    } else {
        Ok(None)
    }
}

/// `dirs::home_dir`, with the path written as text. The directory depends on
/// the user and the environment, so nothing is claimed of it.
#[verifier::external_body]
fn home_dir_text() -> (home: Option<String>) {
    match dirs::home_dir() {
        Some(path) => Some(path.to_string_lossy().to_string()),
        None => None,
    }
}

/// The directory that the node's files lie below: the home directory that
/// was found, or the empty text where none was.
pub fn home_or_empty(found: Option<String>) -> (home: String)
    ensures
        home@ == match found {
            Some(dir) => dir@,
            None => Seq::<char>::empty(),
        },
{
    match found {
        Some(dir) => dir,
        None => String::new(),
    }
}

/// The user's home directory, or the empty text where none is known. Which
/// directory that is depends on the user and the environment.
pub fn get_home_dir() -> (home: String) {
    home_or_empty(home_dir_text())
}

/// `tail` below the directory `home`.
fn below(home: &str, tail: &str) -> (path: String)
    ensures
        path@ == home@ + tail@,
{
    String::from_str(home).concat(tail)
}

/// The directory of the key files, below the home directory `home`.
pub fn get_keys_dir(home: &str) -> (path: String)
    ensures
        path@ == home@ + "/.resk/keys"@,
{
    below(home, "/.resk/keys")
}

/// The file of the public key, below the home directory `home`.
pub fn get_pub_key_path(home: &str) -> (path: String)
    ensures
        path@ == home@ + "/.resk/keys/pub_key.pem"@,
{
    below(home, "/.resk/keys/pub_key.pem")
}

/// The file of the private key, below the home directory `home`.
pub fn get_private_key_path(home: &str) -> (path: String)
    ensures
        path@ == home@ + "/.resk/keys/private_key.pem"@,
{
    below(home, "/.resk/keys/private_key.pem")
}

/// The file of the peer database, below the home directory `home`.
pub fn get_db_path(home: &str) -> (path: String)
    ensures
        path@ == home@ + "/.resk/resk_db.sqlite"@,
{
    below(home, "/.resk/resk_db.sqlite")
}

/// The log file, below the home directory `home`.
pub fn get_log_file_path(home: &str) -> (path: String)
    ensures
        path@ == home@ + "/.resk/resk.log"@,
{
    below(home, "/.resk/resk.log")
}

/// The address that a request came from: the one that the connection
/// reports, or the loopback address where it reports none.
pub fn get_remote_ip(reported: Option<&str>) -> (ip: String)
    ensures
        ip@ == match reported {
            Some(addr) => addr@,
            None => "127.0.0.1"@,
        },
{
    match reported {
        Some(addr) => String::from_str(addr),
        None => String::from_str("127.0.0.1"),
    }
}

} // verus!
