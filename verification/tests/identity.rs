use resk::utils::encryption::{
    encode_verify_key, generate_keys, get_digest, key_pair_from_pkcs8, load_sign_key,
    load_verify_key, sign_message, to_hex, verify_message,
};
use resk::utils::error::Error;

#[test]
fn sign_then_verify_accepts() {
    let pair = generate_keys().unwrap();
    let key_text = encode_verify_key(&pair.verify_key);
    let msg = "hello".to_string();
    let sig = sign_message(&pair.sign_key, &msg).unwrap();
    assert!(verify_message(&key_text, &sig, &msg).is_ok());
}

#[test]
fn signing_is_deterministic_per_key_and_message() {
    let pair = generate_keys().unwrap();
    let msg = "same content".to_string();
    let first = sign_message(&pair.sign_key, &msg).unwrap();
    let second = sign_message(&pair.sign_key, &msg).unwrap();
    assert_eq!(first, second);
}

#[test]
fn signature_is_86_characters_of_base64() {
    let pair = generate_keys().unwrap();
    let sig = sign_message(&pair.sign_key, &"x".to_string()).unwrap();
    assert_eq!(sig.len(), 86);
    assert_eq!(load_verify_key(&sig).unwrap().len(), 64);
}

#[test]
fn verify_rejects_other_message() {
    let pair = generate_keys().unwrap();
    let key_text = encode_verify_key(&pair.verify_key);
    let sig = sign_message(&pair.sign_key, &"hello".to_string()).unwrap();
    let r = verify_message(&key_text, &sig, &"hullo".to_string());
    assert!(matches!(r, Err(Error::UnspecifiedRingError(_))));
}

#[test]
fn verify_rejects_other_key() {
    let a = generate_keys().unwrap();
    let b = generate_keys().unwrap();
    let msg = "hello".to_string();
    let sig = sign_message(&a.sign_key, &msg).unwrap();
    let r = verify_message(&encode_verify_key(&b.verify_key), &sig, &msg);
    assert!(matches!(r, Err(Error::UnspecifiedRingError(_))));
}

#[test]
fn verify_rejects_tampered_signature() {
    let pair = generate_keys().unwrap();
    let key_text = encode_verify_key(&pair.verify_key);
    let msg = "hello".to_string();
    let sig = sign_message(&pair.sign_key, &msg).unwrap();
    let mut bytes = load_verify_key(&sig).unwrap();
    bytes[0] ^= 1;
    let forged = encode_verify_key(&bytes);
    assert!(verify_message(&key_text, &forged, &msg).is_err());
}

#[test]
fn verify_fails_closed_on_bad_base64_key() {
    let pair = generate_keys().unwrap();
    let msg = "hello".to_string();
    let sig = sign_message(&pair.sign_key, &msg).unwrap();
    let r = verify_message(&"not base64 !!".to_string(), &sig, &msg);
    assert!(matches!(r, Err(Error::BaseDecode(_))));
}

#[test]
fn verify_fails_closed_on_bad_base64_signature() {
    let pair = generate_keys().unwrap();
    let key_text = encode_verify_key(&pair.verify_key);
    let r = verify_message(&key_text, &"***".to_string(), &"hello".to_string());
    assert!(matches!(r, Err(Error::BaseDecode(_))));
}

#[test]
fn verify_fails_closed_on_padded_base64() {
    let pair = generate_keys().unwrap();
    let key_text = encode_verify_key(&pair.verify_key);
    let r = verify_message(&key_text, &"aGVsbG8=".to_string(), &"hello".to_string());
    assert!(matches!(r, Err(Error::BaseDecode(_))));
}

#[test]
fn verify_fails_closed_on_short_signature() {
    let pair = generate_keys().unwrap();
    let key_text = encode_verify_key(&pair.verify_key);
    let short = encode_verify_key(&vec![1u8, 2, 3]);
    let r = verify_message(&key_text, &short, &"hello".to_string());
    assert!(matches!(r, Err(Error::UnspecifiedRingError(_))));
}

#[test]
fn verify_fails_closed_on_short_key() {
    let pair = generate_keys().unwrap();
    let msg = "hello".to_string();
    let sig = sign_message(&pair.sign_key, &msg).unwrap();
    let short_key = encode_verify_key(&vec![7u8; 31]);
    let r = verify_message(&short_key, &sig, &msg);
    assert!(matches!(r, Err(Error::UnspecifiedRingError(_))));
}

#[test]
fn sign_rejects_a_document_that_is_no_key() {
    let r = sign_message(&vec![0u8; 10], &"hello".to_string());
    assert!(matches!(r, Err(Error::KeyRejectedError(_))));
    assert!(matches!(load_sign_key(&vec![]), Err(Error::KeyRejectedError(_))));
    assert!(matches!(key_pair_from_pkcs8(vec![1, 2, 3]), Err(Error::KeyRejectedError(_))));
}

#[test]
fn key_pair_from_pkcs8_gives_the_public_half() {
    let pair = generate_keys().unwrap();
    assert_eq!(pair.verify_key.len(), 32);
    assert!(load_sign_key(&pair.sign_key).is_ok());
    let again = key_pair_from_pkcs8(pair.sign_key.clone()).unwrap();
    assert_eq!(again.verify_key, pair.verify_key);
    assert_eq!(again.sign_key, pair.sign_key);
}

#[test]
fn fresh_identities_differ() {
    let a = generate_keys().unwrap();
    let b = generate_keys().unwrap();
    assert_ne!(a.verify_key, b.verify_key);
}

#[test]
fn encode_verify_key_is_url_safe_base64_without_padding() {
    assert_eq!(encode_verify_key(&vec![0xfb, 0xff]), "-_8");
    assert_eq!(encode_verify_key(&b"hello".to_vec()), "aGVsbG8");
    assert_eq!(encode_verify_key(&vec![]), "");
}

#[test]
fn load_verify_key_decodes_url_safe_base64() {
    assert_eq!(load_verify_key(&"-_8".to_string()).unwrap(), vec![0xfb, 0xff]);
    assert_eq!(load_verify_key(&"aGVsbG8".to_string()).unwrap(), b"hello".to_vec());
    assert!(matches!(load_verify_key(&"+/8".to_string()), Err(Error::BaseDecode(_))));
}

#[test]
fn to_hex_writes_two_lower_case_digits_per_byte() {
    assert_eq!(to_hex(&[]), "");
    assert_eq!(to_hex(&[0x00, 0x09, 0x0a, 0x0f, 0x10, 0xab, 0xff]), "00090a0f10abff");
}

#[test]
fn digest_of_the_empty_tag() {
    assert_eq!(
        get_digest(""),
        "cf83e1357eefb8bdf1542850d66d8007d620e4050b5715dc83f4a921d36ce9ce\
         47d0d13c5d85f2b0ff8318d2877eec2f63b931bd47417a81a538327af927da3e"
    );
}

#[test]
fn digest_of_abc() {
    assert_eq!(
        get_digest("abc"),
        "ddaf35a193617abacc417349ae20413112e6fa4e89a97ea20a9eeee64b55d39a\
         2192992a274fc1a836ba3c23a3feebbd454d4423643ce80e2a9ac94fa54ca49f"
    );
}

#[test]
fn digest_is_deterministic_and_tells_tags_apart() {
    assert_eq!(get_digest("resk"), get_digest("resk"));
    assert_ne!(get_digest("resk"), get_digest("yes"));
    assert_eq!(get_digest("resk").len(), 128);
}
