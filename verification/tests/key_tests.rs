use std::str::FromStr;

use faucet_core::errors::Error;
use faucet_core::hash::blake2b_256;
use faucet_core::key::{new_address, sign, to_public, Key, KeyInfo, SignatureType};

const SECP_KEY_BLOB: &str = "7b2254797065223a312c22507269766174654b6579223a2272744f75762f386664316d72535570313970487064645479392b67756e7376656a786e317950356b6869493d227d";

#[test]
fn test_key_info_from_str() {
    let key_info = KeyInfo::from_str(SECP_KEY_BLOB).unwrap();
    assert_eq!(key_info.sig_type, SignatureType::Secp256k1);
}

#[test]
fn test_key_info_bad_hex() {
    let e = KeyInfo::parse("zz").unwrap_err();
    assert_eq!(e, Error::InvalidKeyMaterial);
}

#[test]
fn test_key_info_bad_utf8() {
    // 0xff is never valid UTF-8.
    let e = KeyInfo::parse("ff").unwrap_err();
    assert_eq!(e, Error::InvalidKeyMaterial);
}

#[test]
fn test_key_info_bad_json() {
    // "hello" is valid UTF-8 but not JSON.
    let e = KeyInfo::parse("68656c6c6f").unwrap_err();
    assert_eq!(e, Error::InvalidKeyMaterial);
}

#[test]
fn test_key_info_unknown_signature_type() {
    let blob = hex::encode(r#"{"Type":9,"PrivateKey":"AAAA"}"#);
    let e = KeyInfo::parse(&blob).unwrap_err();
    assert_eq!(e, Error::InvalidKeyMaterial);
}

#[test]
fn test_key_info_bad_base64() {
    let blob = hex::encode(r#"{"Type":1,"PrivateKey":"!!"}"#);
    let e = KeyInfo::parse(&blob).unwrap_err();
    assert_eq!(e, Error::InvalidKeyMaterial);
}

#[test]
fn test_key_try_from_secp() {
    let key_info = KeyInfo::parse(SECP_KEY_BLOB).unwrap();
    let key = Key::try_from(key_info.clone()).unwrap();
    assert_eq!(key.key_info, key_info);
    assert_eq!(key.address.protocol, 1);
    // The payload is the 20-byte BLAKE2b hash of the uncompressed public key.
    let pubkey = to_public(SignatureType::Secp256k1, &key_info.private_key).unwrap();
    let digest = blake2b_simd::Params::new()
        .hash_length(20)
        .to_state()
        .update(&pubkey)
        .finalize();
    assert_eq!(key.address.payload, digest.as_bytes().to_vec());
}

#[test]
fn test_to_public_rejects_wrong_length() {
    let e = to_public(SignatureType::Secp256k1, &[1, 2, 3]).unwrap_err();
    assert_eq!(e, Error::InvalidKeyMaterial);
    let e = to_public(SignatureType::BLS, &[1, 2, 3]).unwrap_err();
    assert_eq!(e, Error::InvalidKeyMaterial);
}

#[test]
fn test_new_address_rejects_wrong_length() {
    assert!(new_address(SignatureType::BLS, &[0u8; 47]).is_err());
    assert!(new_address(SignatureType::Secp256k1, &[0u8; 64]).is_err());
}

#[test]
fn test_sign_secp_is_verifiable() {
    let key_info = KeyInfo::parse(SECP_KEY_BLOB).unwrap();
    let msg = b"an arbitrary message";
    let signature = sign(SignatureType::Secp256k1, &key_info.private_key, msg).unwrap();
    assert_eq!(signature.sig_type, SignatureType::Secp256k1);
    assert_eq!(signature.bytes.len(), 65);

    // The wire form is the 64-byte (r, s) encoding plus a recovery id, over
    // the 256-bit BLAKE2b digest of the message.
    let digest = blake2b_256(msg);
    let mut d32 = [0u8; 32];
    d32.copy_from_slice(&digest);
    let m = libsecp256k1::Message::parse(&d32);
    let mut s64 = [0u8; 64];
    s64.copy_from_slice(&signature.bytes[..64]);
    let sig = libsecp256k1::Signature::parse_standard(&s64).unwrap();
    let pubkey_bytes = to_public(SignatureType::Secp256k1, &key_info.private_key).unwrap();
    let pubkey = libsecp256k1::PublicKey::parse_slice(&pubkey_bytes, None).unwrap();
    assert!(libsecp256k1::verify(&m, &sig, &pubkey));

    // The recovery id recovers the same public key.
    let rid = libsecp256k1::RecoveryId::parse(signature.bytes[64]).unwrap();
    let recovered = libsecp256k1::recover(&m, &sig, &rid).unwrap();
    assert_eq!(recovered.serialize().to_vec(), pubkey_bytes);
}

#[test]
fn test_sign_bls_is_verifiable() {
    let sk = bls_signatures::PrivateKey::new(b"a deterministic seed of 32 bytes!");
    let priv_bytes = bls_signatures::Serialize::as_bytes(&sk);
    let msg = b"an arbitrary message";

    let signature = sign(SignatureType::BLS, &priv_bytes, msg).unwrap();
    assert_eq!(signature.sig_type, SignatureType::BLS);
    assert_eq!(signature.bytes.len(), 96);

    let sig = <bls_signatures::Signature as bls_signatures::Serialize>::from_bytes(
        &signature.bytes,
    )
    .unwrap();
    let pk = sk.public_key();
    assert!(bls_signatures::verify_messages(&sig, &[msg.as_slice()], &[pk]));

    // And the derived address embeds the 48-byte public key.
    let addr = new_address(
        SignatureType::BLS,
        &to_public(SignatureType::BLS, &priv_bytes).unwrap(),
    )
    .unwrap();
    assert_eq!(addr.protocol, 3);
    assert_eq!(addr.payload, bls_signatures::Serialize::as_bytes(&pk));
}
