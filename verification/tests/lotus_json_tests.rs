use faucet_core::address::{parse_address, Address};
use faucet_core::bigint::{parse_decimal, BigInt, TokenAmount};
use faucet_core::errors::{Error, Network};
use faucet_core::key::{Signature, SignatureType};
use faucet_core::lotus_json::{
    vec_u8_from_lotus_json, vec_u8_to_lotus_json, AddressLotusJson, BigIntLotusJson, CidLotusJson,
    LotusJson, MessageLookup, MessageLotusJson, SignatureLotusJson, SignatureTypeLotusJson,
    SignedMessageLotusJson, TokenAmountLotusJson, VecU8LotusJson,
};
use faucet_core::message::{message_cid, Message, SignedMessage};

fn amount(text: &str) -> TokenAmount {
    TokenAmount {
        attos: parse_decimal(text.as_bytes()).unwrap(),
    }
}

#[test]
fn test_big_int_round_trip() {
    for text in ["0", "123", "-123", "99999999999999999999999999"] {
        let b = BigInt::from_lotus_json(&BigIntLotusJson(text.to_string())).unwrap();
        assert_eq!(b.to_lotus_json(), BigIntLotusJson(text.to_string()));
    }
    // Non-canonical text reads fine and renders canonically.
    let b = BigInt::from_lotus_json(&BigIntLotusJson("-00123".to_string())).unwrap();
    assert_eq!(b.to_lotus_json().0, "-123");
    let b = BigInt::from_lotus_json(&BigIntLotusJson("+007".to_string())).unwrap();
    assert_eq!(b.to_lotus_json().0, "7");
    let b = BigInt::from_lotus_json(&BigIntLotusJson("-0".to_string())).unwrap();
    assert_eq!(b.to_lotus_json().0, "0");
}

#[test]
fn test_big_int_malformed_fails() {
    for text in ["12a", "", "-", "+", " 12", "0x10"] {
        let e = BigInt::from_lotus_json(&BigIntLotusJson(text.to_string())).unwrap_err();
        assert!(matches!(e, Error::DecodeError(_)));
    }
}

#[test]
fn test_token_amount_round_trip_and_malformed() {
    let a = amount("10000000000000000");
    let j = a.to_lotus_json();
    assert_eq!(j.0, "10000000000000000");
    assert_eq!(TokenAmount::from_lotus_json(&j).unwrap(), a);

    let e = TokenAmount::from_lotus_json(&TokenAmountLotusJson("12a".to_string())).unwrap_err();
    assert!(matches!(e, Error::DecodeError(_)));
}

#[test]
fn test_vec_u8_base64() {
    let j = vec_u8_to_lotus_json(b"hello");
    assert_eq!(j, VecU8LotusJson(Some("aGVsbG8=".to_string())));
    assert_eq!(vec_u8_from_lotus_json(&j).unwrap(), b"hello".to_vec());
}

#[test]
fn test_vec_u8_empty_is_absent() {
    // Empty bytes render as an absent value, and an absent value reads
    // back as empty bytes.
    let j = vec_u8_to_lotus_json(&[]);
    assert_eq!(j, VecU8LotusJson(None));
    let b = vec_u8_from_lotus_json(&VecU8LotusJson(None)).unwrap();
    assert!(b.is_empty());
    assert_eq!(vec_u8_to_lotus_json(&b), VecU8LotusJson(None));
}

#[test]
fn test_vec_u8_bad_base64_fails() {
    let e = vec_u8_from_lotus_json(&VecU8LotusJson(Some("!!".to_string()))).unwrap_err();
    assert!(matches!(e, Error::DecodeError(_)));
}

#[test]
fn test_address_round_trip_both_networks() {
    let a = parse_address("0xd388ab098ed3e84c0d808776440b48f685198498", Network::Testnet).unwrap();
    let tj = a.to_lotus_json(Network::Testnet);
    assert_eq!(tj.0, "t410f2oekwcmo2pueydmaq53eic2i62crtbeyuzx2gmy");
    assert_eq!(Address::from_lotus_json(&tj).unwrap(), a);

    let mj = a.to_lotus_json(Network::Mainnet);
    assert_eq!(mj.0, "f410f2oekwcmo2pueydmaq53eic2i62crtbeyuzx2gmy");
    assert_eq!(Address::from_lotus_json(&mj).unwrap(), a);
}

#[test]
fn test_address_malformed_fails() {
    let e = Address::from_lotus_json(&AddressLotusJson("xyz".to_string())).unwrap_err();
    assert!(matches!(e, Error::DecodeError(_)));
}

#[test]
fn test_signature_type_integer_form() {
    assert_eq!(SignatureType::Secp256k1.to_lotus_json(), SignatureTypeLotusJson(1));
    assert_eq!(SignatureType::BLS.to_lotus_json(), SignatureTypeLotusJson(2));
    assert_eq!(
        SignatureType::from_lotus_json(&SignatureTypeLotusJson(2)).unwrap(),
        SignatureType::BLS
    );
    let e = SignatureType::from_lotus_json(&SignatureTypeLotusJson(3)).unwrap_err();
    assert_eq!(e, Error::UnsupportedScheme);
}

#[test]
fn test_signature_round_trip() {
    let s = Signature {
        sig_type: SignatureType::BLS,
        bytes: vec![1, 2, 3],
    };
    let j = s.to_lotus_json();
    assert_eq!(j.sig_type, SignatureTypeLotusJson(2));
    assert_eq!(Signature::from_lotus_json(&j).unwrap(), s);

    // An empty signature's data is absent and round-trips too.
    let s = Signature {
        sig_type: SignatureType::Secp256k1,
        bytes: vec![],
    };
    let j = s.to_lotus_json();
    assert_eq!(j.data, VecU8LotusJson(None));
    assert_eq!(Signature::from_lotus_json(&j).unwrap(), s);
}

fn sample_message() -> Message {
    Message {
        version: 0,
        from: parse_address("t1alg2sxw32ns3ech2w7r3dmp2gl2fputkl7x7jta", Network::Testnet)
            .unwrap(),
        to: parse_address("t410f2oekwcmo2pueydmaq53eic2i62crtbeyuzx2gmy", Network::Testnet)
            .unwrap(),
        sequence: 8,
        value: amount("1000000000000000000"),
        method_num: 0,
        params: vec![],
        gas_limit: 2000,
        gas_fee_cap: amount("101"),
        gas_premium: amount("99"),
    }
}

#[test]
fn test_message_round_trip() {
    let m = sample_message();
    let j = m.to_lotus_json(Network::Testnet);
    assert_eq!(j.nonce, 8);
    assert_eq!(j.method, 0);
    assert_eq!(j.to.0, "t410f2oekwcmo2pueydmaq53eic2i62crtbeyuzx2gmy");
    assert_eq!(j.value.0, "1000000000000000000");
    // Empty parameters are omitted from the interchange form.
    assert_eq!(j.params, VecU8LotusJson(None));
    assert_eq!(Message::from_lotus_json(&j).unwrap(), m);

    // The round trip also holds when rendered for the main network.
    let j = m.to_lotus_json(Network::Mainnet);
    assert_eq!(j.to.0, "f410f2oekwcmo2pueydmaq53eic2i62crtbeyuzx2gmy");
    assert_eq!(Message::from_lotus_json(&j).unwrap(), m);
}

#[test]
fn test_message_malformed_field_is_named() {
    let good = sample_message().to_lotus_json(Network::Testnet);

    let mut j = good.clone();
    j.to = AddressLotusJson("bogus".to_string());
    assert!(matches!(Message::from_lotus_json(&j).unwrap_err(),
        Error::DecodeError(p) if p == "To"));

    let mut j = good.clone();
    j.value = TokenAmountLotusJson("12a".to_string());
    assert!(matches!(Message::from_lotus_json(&j).unwrap_err(),
        Error::DecodeError(p) if p == "Value"));

    let mut j = good;
    j.params = VecU8LotusJson(Some("!!".to_string()));
    assert!(matches!(Message::from_lotus_json(&j).unwrap_err(),
        Error::DecodeError(p) if p == "Params"));
}

#[test]
fn test_signed_message_round_trip_discards_cid() {
    let sm = SignedMessage {
        message: sample_message(),
        signature: Signature {
            sig_type: SignatureType::BLS,
            bytes: vec![7u8; 96],
        },
    };
    let j = sm.to_lotus_json(Network::Testnet);
    // The identifier field is informational output, computed by the
    // scheme-aware rule.
    assert_eq!(
        j.cid,
        Some(message_cid(&sm.message).to_lotus_json())
    );
    assert_eq!(SignedMessage::from_lotus_json(&j).unwrap(), sm);

    // Reading never trusts the identifier field.
    let mut stripped = j.clone();
    stripped.cid = None;
    assert_eq!(SignedMessage::from_lotus_json(&stripped).unwrap(), sm);
}

#[test]
fn test_cid_round_trip() {
    let c = message_cid(&sample_message());
    let j = c.to_lotus_json();
    assert!(j.slash.starts_with('b'));
    assert_eq!(faucet_core::cid::Cid::from_lotus_json(&j).unwrap(), c);

    let e = faucet_core::cid::Cid::from_lotus_json(&CidLotusJson {
        slash: "not a cid".to_string(),
    })
    .unwrap_err();
    assert!(matches!(e, Error::DecodeError(_)));
}

#[test]
fn test_lotus_json_wrapper_and_message_lookup() {
    let w = LotusJson(42u64);
    assert_eq!(w.into_inner(), 42);

    let lookup = MessageLookup {
        height: 100,
        message: message_cid(&sample_message()),
    };
    assert_eq!(lookup.height, 100);
}
