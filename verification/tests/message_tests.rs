use std::str::FromStr;

use faucet_core::address::parse_address;
use faucet_core::bigint::{parse_decimal, TokenAmount};
use faucet_core::errors::Network;
use faucet_core::key::{Signature, SignatureType};
use faucet_core::message::{
    message_cbor, message_cid, message_transfer, signed_cbor, Message, SignedMessage,
};
use multihash_codetable::MultihashDigest;

const TO_STR: &str = "t410f2oekwcmo2pueydmaq53eic2i62crtbeyuzx2gmy";
const FROM_STR: &str = "t1alg2sxw32ns3ech2w7r3dmp2gl2fputkl7x7jta";

fn amount(text: &str) -> TokenAmount {
    TokenAmount {
        attos: parse_decimal(text.as_bytes()).unwrap(),
    }
}

fn our_message() -> Message {
    Message {
        version: 0,
        from: parse_address(FROM_STR, Network::Testnet).unwrap(),
        to: parse_address(TO_STR, Network::Testnet).unwrap(),
        sequence: 7,
        value: amount("12345"),
        method_num: 0,
        params: vec![1, 2],
        gas_limit: 42,
        gas_fee_cap: amount("1500000000"),
        gas_premium: amount("-7"),
    }
}

fn reference_message() -> fvm_shared::message::Message {
    let net = fvm_shared::address::Network::Testnet;
    fvm_shared::message::Message {
        version: 0,
        from: net.parse_address(FROM_STR).unwrap(),
        to: net.parse_address(TO_STR).unwrap(),
        sequence: 7,
        value: fvm_shared::econ::TokenAmount::from_atto(
            fvm_shared::bigint::BigInt::from_str("12345").unwrap(),
        ),
        method_num: 0,
        params: fvm_ipld_encoding::RawBytes::new(vec![1, 2]),
        gas_limit: 42,
        gas_fee_cap: fvm_shared::econ::TokenAmount::from_atto(
            fvm_shared::bigint::BigInt::from_str("1500000000").unwrap(),
        ),
        gas_premium: fvm_shared::econ::TokenAmount::from_atto(
            fvm_shared::bigint::BigInt::from_str("-7").unwrap(),
        ),
    }
}

#[test]
fn test_message_cbor_matches_reference() {
    let ours = message_cbor(&our_message());
    let reference = fvm_ipld_encoding::to_vec(&reference_message()).unwrap();
    assert_eq!(ours, reference);
}

#[test]
fn test_zero_value_message_cbor_matches_reference() {
    let net = fvm_shared::address::Network::Testnet;
    let from = parse_address(FROM_STR, Network::Testnet).unwrap();
    let to = parse_address(TO_STR, Network::Testnet).unwrap();
    let ours = message_cbor(&message_transfer(from, to, TokenAmount::zero()));

    let reference = fvm_ipld_encoding::to_vec(&fvm_shared::message::Message {
        version: 0,
        from: net.parse_address(FROM_STR).unwrap(),
        to: net.parse_address(TO_STR).unwrap(),
        sequence: 0,
        value: fvm_shared::econ::TokenAmount::from_atto(0),
        method_num: 0,
        params: fvm_ipld_encoding::RawBytes::new(vec![]),
        gas_limit: 0,
        gas_fee_cap: fvm_shared::econ::TokenAmount::from_atto(0),
        gas_premium: fvm_shared::econ::TokenAmount::from_atto(0),
    })
    .unwrap();
    assert_eq!(ours, reference);
}

#[test]
fn test_message_cid_matches_reference() {
    let reference_bytes = fvm_ipld_encoding::to_vec(&reference_message()).unwrap();
    let reference_cid = cid::Cid::new_v1(
        fvm_ipld_encoding::DAG_CBOR,
        multihash_codetable::Code::Blake2b256.digest(&reference_bytes),
    );

    let ours = message_cid(&our_message());
    assert_eq!(ours.to_lotus_json().slash, reference_cid.to_string());
    assert_eq!(ours.to_bytes(), reference_cid.to_bytes());
}

#[test]
fn test_signed_cbor_matches_reference() {
    let sig_bytes = vec![9u8; 65];
    let sm = SignedMessage {
        message: our_message(),
        signature: Signature {
            sig_type: SignatureType::Secp256k1,
            bytes: sig_bytes.clone(),
        },
    };
    let ours = signed_cbor(&sm);

    // The reference form is a two-entry CBOR map from the field names to
    // the reference encodings of the message and the signature.
    let mut expected = vec![0xa2u8, 0x67];
    expected.extend_from_slice(b"message");
    expected.extend(fvm_ipld_encoding::to_vec(&reference_message()).unwrap());
    expected.push(0x69);
    expected.extend_from_slice(b"signature");
    let reference_sig = fvm_shared::crypto::signature::Signature::new_secp256k1(sig_bytes);
    expected.extend(fvm_ipld_encoding::to_vec(&reference_sig).unwrap());
    assert_eq!(ours, expected);
}

#[test]
fn test_signed_message_cid_bls_excludes_signature() {
    let m = our_message();
    let sm = SignedMessage {
        message: m.clone(),
        signature: Signature {
            sig_type: SignatureType::BLS,
            bytes: vec![7u8; 96],
        },
    };
    assert!(sm.is_bls());
    assert_eq!(sm.cid(), message_cid(&m));
}

#[test]
fn test_signed_message_cid_secp_covers_envelope() {
    let m = our_message();
    let sm = SignedMessage {
        message: m.clone(),
        signature: Signature {
            sig_type: SignatureType::Secp256k1,
            bytes: vec![9u8; 65],
        },
    };
    assert!(!sm.is_bls());
    assert_ne!(sm.cid(), message_cid(&m));

    let digest = blake2b_simd::Params::new()
        .hash_length(32)
        .to_state()
        .update(&signed_cbor(&sm))
        .finalize();
    assert_eq!(sm.cid().digest, digest.as_bytes().to_vec());
}

#[test]
fn test_message_transfer_fields() {
    let from = parse_address(FROM_STR, Network::Testnet).unwrap();
    let to = parse_address(TO_STR, Network::Testnet).unwrap();
    let value = amount("5");
    let m = message_transfer(from.clone(), to.clone(), value.clone());
    assert_eq!(m.version, 0);
    assert_eq!(m.sequence, 0);
    assert_eq!(m.method_num, 0);
    assert_eq!(m.from, from);
    assert_eq!(m.to, to);
    assert_eq!(m.value, value);
    assert!(m.params.is_empty());
    assert_eq!(m.gas_limit, 0);
    assert_eq!(m.gas_fee_cap, TokenAmount::zero());
    assert_eq!(m.gas_premium, TokenAmount::zero());
}
