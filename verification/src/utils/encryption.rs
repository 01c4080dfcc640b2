//! Identity and signing: Ed25519 key pairs, signatures over clipboard content,
//! and the digests that mark discovery datagrams.
//!
//! The cryptography is ring's and the transport encoding is the base64
//! crate's. What they compute is named here by uninterpreted functions, and
//! the contracts of this module are stated over those names.

use vstd::prelude::*;
use vstd::string::*;
use base64::Engine;
use ring::signature::KeyPair;
use crate::utils::error::Error;

verus! {

/// The length in bytes that a message handed to ring stays under. ring's
/// SHA-512 counts its input in bits in a 64-bit counter, and signing puts 64
/// bytes of its own before the message.
pub const MESSAGE_LIMIT: u64 = 0x1000_0000_0000_0000;

/// The public key that ring reads out of a PKCS#8 v2 document, or `None`
/// where ring rejects the document.
pub uninterp spec fn ed25519_public_key(pkcs8: Seq<u8>) -> Option<Seq<u8>>;

/// The Ed25519 signature that the key pair in `pkcs8` gives to `msg`.
pub uninterp spec fn ed25519_signature(pkcs8: Seq<u8>, msg: Seq<u8>) -> Seq<u8>;

/// Whether ring accepts `signature` as an Ed25519 signature of `msg` under
/// `public_key`.
pub uninterp spec fn ed25519_verifies(
    public_key: Seq<u8>,
    msg: Seq<u8>,
    signature: Seq<u8>,
) -> bool;

/// The SHA-512 digest of `data`.
pub uninterp spec fn sha512(data: Seq<u8>) -> Seq<u8>;

/// The URL-safe base64 text of `data`, without padding.
pub uninterp spec fn base64url_encode(data: Seq<u8>) -> Seq<char>;

/// The bytes that `text` stands for in URL-safe base64 without padding, or
/// `None` where `text` is no such encoding.
pub uninterp spec fn base64url_decode(text: Seq<char>) -> Option<Seq<u8>>;

/// `ring::signature::Ed25519KeyPair::generate_pkcs8` with ring's system
/// random number generator. The document is random, so nothing is claimed of
/// it.
#[verifier::external_body]
fn ed25519_generate_pkcs8() -> (r: Result<Vec<u8>, ring::error::Unspecified>) {
    let rng = ring::rand::SystemRandom::new();
    match ring::signature::Ed25519KeyPair::generate_pkcs8(&rng) {
        Ok(document) => Ok(document.as_ref().to_vec()),
        Err(e) => Err(e),
    }
}

/// `ring::signature::Ed25519KeyPair::from_pkcs8`, then the pair's
/// `public_key`. The contract names the outcome `ed25519_public_key` and
/// claims that a public key has 32 bytes.
#[verifier::external_body]
fn ed25519_public_key_of(pkcs8: &[u8]) -> (r: Result<Vec<u8>, ring::error::KeyRejected>)
    ensures
        match r {
            Ok(key) => ed25519_public_key(pkcs8@) == Some(key@) && key@.len() == 32,
            Err(_) => ed25519_public_key(pkcs8@) is None,
        },
{
    match ring::signature::Ed25519KeyPair::from_pkcs8(pkcs8) {
        Ok(pair) => Ok(pair.public_key().as_ref().to_vec()),
        Err(e) => Err(e),
    }
}

/// `ring::signature::Ed25519KeyPair::sign`, on the pair that `from_pkcs8`
/// reads out of `pkcs8`. The contract claims that signing fails exactly where
/// ring rejects the document, names the signature `ed25519_signature`, and
/// claims that it has 64 bytes and that ring's verification accepts it under
/// the pair's own public key.
#[verifier::external_body]
fn ed25519_sign(pkcs8: &[u8], msg: &[u8]) -> (r: Result<Vec<u8>, ring::error::KeyRejected>)
    requires
        msg@.len() < MESSAGE_LIMIT,
    ensures
        r is Ok <==> ed25519_public_key(pkcs8@) is Some,
        r is Ok ==> r->Ok_0@ == ed25519_signature(pkcs8@, msg@),
        r is Ok ==> r->Ok_0@.len() == 64,
        r is Ok ==> ed25519_verifies(ed25519_public_key(pkcs8@)->Some_0, msg@, r->Ok_0@),
{
    match ring::signature::Ed25519KeyPair::from_pkcs8(pkcs8) {
        Ok(pair) => Ok(pair.sign(msg).as_ref().to_vec()),
        Err(e) => Err(e),
    }
}

/// `ring::signature::UnparsedPublicKey::verify` with `ring::signature::ED25519`.
/// The contract names the verdict `ed25519_verifies` and claims that ring
/// accepts only a public key of 32 bytes and a signature of 64 bytes.
#[verifier::external_body]
fn ed25519_verify(
    public_key: &[u8],
    msg: &[u8],
    signature: &[u8],
) -> (r: Result<(), ring::error::Unspecified>)
    requires
        msg@.len() < MESSAGE_LIMIT,
    ensures
        r is Ok <==> ed25519_verifies(public_key@, msg@, signature@),
        r is Ok ==> public_key@.len() == 32 && signature@.len() == 64,
{
    ring::signature::UnparsedPublicKey::new(&ring::signature::ED25519, public_key).verify(
        msg,
        signature,
    )
}

/// `ring::digest::digest` with `ring::digest::SHA512`. The contract names the
/// digest `sha512` and claims that it has 64 bytes.
#[verifier::external_body]
fn sha512_digest(data: &[u8]) -> (r: Vec<u8>)
    requires
        data@.len() < MESSAGE_LIMIT,
    ensures
        r@ == sha512(data@),
        r@.len() == 64,
{
    ring::digest::digest(&ring::digest::SHA512, data).as_ref().to_vec()
}

/// `base64::Engine::encode` of `base64::engine::general_purpose::URL_SAFE_NO_PAD`.
/// The contract names the text `base64url_encode` and claims that decoding
/// it gives the bytes back.
#[verifier::external_body]
fn base64url_encode_bytes(data: &[u8]) -> (r: String)
    requires
        data@.len() <= usize::MAX / 2,
    ensures
        r@ == base64url_encode(data@),
        base64url_decode(r@) == Some(data@),
{
    base64::engine::general_purpose::URL_SAFE_NO_PAD.encode(data)
}

/// `base64::Engine::decode` of `base64::engine::general_purpose::URL_SAFE_NO_PAD`.
/// The contract names the outcome `base64url_decode`.
#[verifier::external_body]
fn base64url_decode_text(text: &str) -> (r: Result<Vec<u8>, base64::DecodeError>)
    ensures
        match r {
            Ok(data) => base64url_decode(text@) == Some(data@),
            Err(_) => base64url_decode(text@) is None,
        },
{
    base64::engine::general_purpose::URL_SAFE_NO_PAD.decode(text)
}

/// `String::push`: appends one character.
#[verifier::external_body]
pub(crate) fn push_char(text: &mut String, c: char)
    ensures
        final(text)@ == old(text)@.push(c),
{
    text.push(c)
}

/// The bytes of a text in UTF-8.
pub open spec fn utf8(text: Seq<char>) -> Seq<u8> {
    vstd::utf8::encode_utf8(text)
}

/// Whether a message is short enough to be signed and verified.
pub open spec fn message_fits(msg: Seq<char>) -> bool {
    utf8(msg).len() < MESSAGE_LIMIT
}

/// The lower-case hexadecimal digit of a value below 16.
pub open spec fn hex_digit(nibble: u8) -> char {
    if nibble < 10 {
        (48 + nibble) as char
    } else {
        (87 + nibble) as char
    }
}

/// The lower-case hexadecimal text of `data`: two digits for each byte, the
/// high half first.
pub open spec fn hex_text(data: Seq<u8>) -> Seq<char> {
    Seq::new(
        2 * data.len(),
        |i: int|
            if i % 2 == 0 {
                hex_digit(data[i / 2] / 16)
            } else {
                hex_digit(data[i / 2] % 16)
            },
    )
}

/// The digest text of a tag: the SHA-512 digest of its bytes, in hexadecimal.
pub open spec fn digest_text(msg: Seq<char>) -> Seq<char> {
    hex_text(sha512(utf8(msg)))
}

/// The text of the signature that the key pair in `sign_key` gives to `msg`.
pub open spec fn signature_text(sign_key: Seq<u8>, msg: Seq<char>) -> Seq<char> {
    base64url_encode(ed25519_signature(sign_key, utf8(msg)))
}

/// Whether `signature` is accepted for `msg` under `verify_key`, both given
/// in URL-safe base64: the message is short enough, both texts decode, and
/// the decoded signature verifies under the decoded key.
pub open spec fn signature_accepted(
    verify_key: Seq<char>,
    signature: Seq<char>,
    msg: Seq<char>,
) -> bool {
    &&& message_fits(msg)
    &&& base64url_decode(verify_key) is Some
    &&& base64url_decode(signature) is Some
    &&& ed25519_verifies(
        base64url_decode(verify_key)->Some_0,
        utf8(msg),
        base64url_decode(signature)->Some_0,
    )
}

/// The signing identity of a node: the PKCS#8 document of its private key and
/// the public key that peers verify its signatures with.
#[derive(Clone)]
pub struct IdentityKeyPair {
    pub sign_key: Vec<u8>,
    pub verify_key: Vec<u8>,
}

impl IdentityKeyPair {
    /// The public half is the one that the private half holds.
    pub open spec fn wf(&self) -> bool {
        ed25519_public_key(self.sign_key@) == Some(self.verify_key@)
    }
}

fn hex_char(nibble: u8) -> (c: char)
    requires
        nibble < 16,
    ensures
        c == hex_digit(nibble),
{
    if nibble < 10 {
        (48u8 + nibble) as char
    } else {
        (87u8 + nibble) as char
    }
}

/// Writes `data` in lower-case hexadecimal.
pub fn to_hex(data: &[u8]) -> (text: String)
    ensures
        text@ == hex_text(data@),
{
    let mut text = String::new();
    let mut i: usize = 0;
    while i < data.len()
        invariant
            i <= data@.len(),
            text@ =~= hex_text(data@.subrange(0, i as int)),
        decreases data@.len() - i,
    {
        let byte: u8 = data[i];
        push_char(&mut text, hex_char(byte / 16));
        push_char(&mut text, hex_char(byte % 16));
        i = i + 1;
    }
    text
}

/// The digest that marks a kind of discovery datagram: the SHA-512 digest of
/// the tag's bytes, written in lower-case hexadecimal. The same tag always
/// gives the same digest.
pub fn get_digest(msg: &str) -> (digest: String)
    requires
        message_fits(msg@),
    ensures
        digest@ == digest_text(msg@),
        digest@.len() == 128,
{
    let hash = sha512_digest(msg.as_bytes());
    to_hex(hash.as_slice())
}

/// Reads the key pair out of a PKCS#8 v2 document.
///
/// Succeeds exactly where the document holds a key pair; the pair then holds
/// the document and its public key.
pub fn key_pair_from_pkcs8(pkcs8: Vec<u8>) -> (r: Result<IdentityKeyPair, Error>)
    ensures
        match r {
            Ok(pair) => pair.sign_key@ == pkcs8@ && pair.wf() && pair.verify_key@.len() == 32,
            Err(e) => ed25519_public_key(pkcs8@) is None && e is KeyRejectedError,
        },
{
    match ed25519_public_key_of(pkcs8.as_slice()) {
        Ok(verify_key) => Ok(IdentityKeyPair { sign_key: pkcs8, verify_key }),
        Err(e) => Err(Error::KeyRejectedError(e)),
    }
}

/// Creates a fresh identity from the system's random numbers.
///
/// Which pair comes out is a matter of chance; whichever does, its two halves
/// belong together. It fails where the random source fails or where the fresh
/// document is rejected.
pub fn generate_keys() -> (r: Result<IdentityKeyPair, Error>)
    ensures
        match r {
            Ok(pair) => pair.wf() && pair.verify_key@.len() == 32,
            Err(e) => e is UnspecifiedRingError || e is KeyRejectedError,
        },
{
    match ed25519_generate_pkcs8() {
        Ok(pkcs8) => key_pair_from_pkcs8(pkcs8),
        Err(e) => Err(Error::UnspecifiedRingError(e)),
    }
}

/// Checks that `bytes` hold the PKCS#8 v2 document of a key pair.
pub fn load_sign_key(bytes: &Vec<u8>) -> (r: Result<(), Error>)
    ensures
        r is Ok <==> ed25519_public_key(bytes@) is Some,
        r is Err ==> r->Err_0 is KeyRejectedError,
{
    match ed25519_public_key_of(bytes.as_slice()) {
        Ok(_) => Ok(()),
        Err(e) => Err(Error::KeyRejectedError(e)),
    }
}

/// Decodes a public key from its transport text. No check is made of the
/// bytes: a key is judged when a signature is verified with it.
pub fn load_verify_key(verify_key: &String) -> (r: Result<Vec<u8>, Error>)
    ensures
        match r {
            Ok(key) => base64url_decode(verify_key@) == Some(key@),
            Err(e) => base64url_decode(verify_key@) is None && e is BaseDecode,
        },
{
    match base64url_decode_text(verify_key.as_str()) {
        Ok(key) => Ok(key),
        Err(e) => Err(Error::BaseDecode(e)),
    }
}

/// Writes a public key in its transport text, URL-safe base64 without
/// padding. Decoding the text gives the key back.
pub fn encode_verify_key(verify_key: &Vec<u8>) -> (text: String)
    requires
        verify_key@.len() <= usize::MAX / 2,
    ensures
        text@ == base64url_encode(verify_key@),
        base64url_decode(text@) == Some(verify_key@),
{
    base64url_encode_bytes(verify_key.as_slice())
}

/// Signs `msg` with the key pair in `sign_key`, a PKCS#8 v2 document, and
/// returns the signature in URL-safe base64.
///
/// Signing succeeds exactly where the message is short enough and the
/// document holds a key pair. The signature is then accepted for the same
/// message under every transport text of the pair's public key.
pub fn sign_message(sign_key: &Vec<u8>, msg: &String) -> (r: Result<String, Error>)
    ensures
        r is Ok <==> message_fits(msg@) && ed25519_public_key(sign_key@) is Some,
        r is Ok ==> r->Ok_0@ == signature_text(sign_key@, msg@),
        r is Ok ==> forall|verify_key: Seq<char>|
            base64url_decode(verify_key) == ed25519_public_key(sign_key@)
                ==> #[trigger] signature_accepted(verify_key, r->Ok_0@, msg@),
        r is Err ==> (if message_fits(msg@) {
            r->Err_0 is KeyRejectedError
        } else {
            r->Err_0 is Generic
        }),
{
    let bytes = msg.as_str().as_bytes();
    if bytes.len() as u64 >= MESSAGE_LIMIT {
        return Err(Error::Generic(String::from_str("message too long to sign")));
    }
    match ed25519_sign(sign_key.as_slice(), bytes) {
        Ok(sig) => Ok(base64url_encode_bytes(sig.as_slice())),
        Err(e) => Err(Error::KeyRejectedError(e)),
    }
}

/// Checks `signature` for `msg` under `verify_key`, both in URL-safe base64.
///
/// It fails closed: a key or a signature that is not base64, a key that is
/// not 32 bytes, a signature that is not 64 bytes, a message too long to hash
/// and a signature that does not match are all refusals, never a crash.
pub fn verify_message(
    verify_key: &String,
    signature: &String,
    msg: &String,
) -> (r: Result<(), Error>)
    ensures
        r is Ok <==> signature_accepted(verify_key@, signature@, msg@),
        r is Ok ==> base64url_decode(verify_key@)->Some_0.len() == 32 && base64url_decode(
            signature@,
        )->Some_0.len() == 64,
        r is Err ==> (if !message_fits(msg@) {
            r->Err_0 is Generic
        } else if base64url_decode(verify_key@) is None || base64url_decode(signature@) is None {
            r->Err_0 is BaseDecode
        } else {
            r->Err_0 is UnspecifiedRingError
        }),
{
    let bytes = msg.as_str().as_bytes();
    if bytes.len() as u64 >= MESSAGE_LIMIT {
        return Err(Error::Generic(String::from_str("message too long to verify")));
    }
    let key = match load_verify_key(verify_key) {
        Ok(key) => key,
        Err(e) => {
            return Err(e);
        },
    };
    let sig = match base64url_decode_text(signature.as_str()) {
        Ok(sig) => sig,
        Err(e) => {
            return Err(Error::BaseDecode(e));
        },
    };
    match ed25519_verify(key.as_slice(), bytes, sig.as_slice()) {
        Ok(()) => Ok(()),
        Err(e) => Err(Error::UnspecifiedRingError(e)),
    }
}

} // verus!
