use faucet_core::address::parse_address;
use faucet_core::bigint::{parse_decimal, TokenAmount};
use faucet_core::errors::Network;
use faucet_core::faucet::{
    calibnet_drip_amount, fil_calibnet_unit, fil_mainnet_unit, format_url, mainnet_drip_amount,
    sign_message, within_drip_limit, SearchPath, RATE_LIMIT_SECONDS,
};
use faucet_core::key::{Key, KeyInfo, SignatureType};
use faucet_core::message::{message_cid, message_transfer};

const SECP_KEY_BLOB: &str = "7b2254797065223a312c22507269766174654b6579223a2272744f75762f386664316d72535570313970487064645479392b67756e7376656a786e317950356b6869493d227d";

fn amount(text: &str) -> TokenAmount {
    TokenAmount {
        attos: parse_decimal(text.as_bytes()).unwrap(),
    }
}

#[test]
fn test_format_url() {
    let base = "https://test.com/";
    let cases = [
        (
            SearchPath::Transaction,
            "0xdef456",
            "https://test.com/txs/0xdef456",
        ),
        (
            SearchPath::Address,
            "0xabc123",
            "https://test.com/address/0xabc123",
        ),
    ];

    for (path, query, expected) in cases.iter() {
        let result = format_url(base, *path, query).unwrap();
        assert_eq!(result.as_str(), *expected);
    }
}

#[test]
fn test_search_path_segments() {
    assert_eq!(SearchPath::Transaction.as_str(), "txs/");
    assert_eq!(SearchPath::Address.as_str(), "address/");
}

#[test]
fn test_drip_amounts() {
    // A hundredth of a whole unit on the main network, one whole unit on
    // the test network.
    assert_eq!(mainnet_drip_amount().to_lotus_json().0, "10000000000000000");
    assert_eq!(
        calibnet_drip_amount().to_lotus_json().0,
        "1000000000000000000"
    );
    assert_eq!(RATE_LIMIT_SECONDS, 600);
    assert_eq!(fil_mainnet_unit(), "FIL");
    assert_eq!(fil_calibnet_unit(), "tFIL");
}

#[test]
fn test_within_drip_limit() {
    let from = parse_address("t1alg2sxw32ns3ech2w7r3dmp2gl2fputkl7x7jta", Network::Testnet)
        .unwrap();
    let to = parse_address("t410f2oekwcmo2pueydmaq53eic2i62crtbeyuzx2gmy", Network::Testnet)
        .unwrap();
    let limit = calibnet_drip_amount();

    let exact = message_transfer(from.clone(), to.clone(), amount("1000000000000000000"));
    assert!(within_drip_limit(&exact, &limit));

    let over = message_transfer(from.clone(), to.clone(), amount("1000000000000000001"));
    assert!(!within_drip_limit(&over, &limit));

    let zero = message_transfer(from, to, TokenAmount::zero());
    assert!(within_drip_limit(&zero, &limit));
}

#[test]
fn test_sign_message_over_cid() {
    let key_info = KeyInfo::parse(SECP_KEY_BLOB).unwrap();
    let key = Key::try_from(key_info).unwrap();
    let from = key.address.clone();
    let to = parse_address("t410f2oekwcmo2pueydmaq53eic2i62crtbeyuzx2gmy", Network::Testnet)
        .unwrap();
    let msg = message_transfer(from, to, amount("5"));

    let sm = sign_message(msg.clone(), &key).unwrap();
    assert_eq!(sm.message, msg);
    assert_eq!(sm.signature.sig_type, SignatureType::Secp256k1);
    assert_eq!(sm.signature.bytes.len(), 65);

    // The signature is over the binary form of the message's content
    // identifier, hashed with 256-bit BLAKE2b.
    let cid_bytes = message_cid(&msg).to_bytes();
    let digest = blake2b_simd::Params::new()
        .hash_length(32)
        .to_state()
        .update(&cid_bytes)
        .finalize();
    let mut d32 = [0u8; 32];
    d32.copy_from_slice(digest.as_bytes());
    let m = libsecp256k1::Message::parse(&d32);
    let mut s64 = [0u8; 64];
    s64.copy_from_slice(&sm.signature.bytes[..64]);
    let sig = libsecp256k1::Signature::parse_standard(&s64).unwrap();
    let pubkey = libsecp256k1::PublicKey::parse_slice(
        &faucet_core::key::to_public(SignatureType::Secp256k1, &key.key_info.private_key)
            .unwrap(),
        None,
    )
    .unwrap();
    assert!(libsecp256k1::verify(&m, &sig, &pubkey));
}

#[test]
fn test_format_url_bad_base() {
    assert!(format_url("not a url", SearchPath::Transaction, "x").is_none());
}
