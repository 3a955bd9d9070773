use faucet_core::address::{format_address, is_valid_prefix, parse_address};
use faucet_core::errors::{Error, Network};

#[test]
fn test_check_address_prefix() {
    // Valid cases
    assert!(is_valid_prefix("f123...", Network::Mainnet));
    assert!(is_valid_prefix("0x123...", Network::Mainnet));
    assert!(is_valid_prefix("t456...", Network::Testnet));
    assert!(is_valid_prefix("0x789...", Network::Testnet));

    // Wrong network
    assert!(!is_valid_prefix("f123...", Network::Testnet));
    assert!(!is_valid_prefix("t456...", Network::Mainnet));

    // Bad length
    assert!(!is_valid_prefix("f", Network::Mainnet));
    assert!(!is_valid_prefix("t", Network::Testnet));
    assert!(!is_valid_prefix("", Network::Mainnet)); // Empty string
    assert!(!is_valid_prefix("abc", Network::Mainnet)); // Short address

    // Invalid prefixes
    assert!(!is_valid_prefix("g123...", Network::Mainnet));
    assert!(!is_valid_prefix("h456...", Network::Testnet));
    assert!(!is_valid_prefix("123...", Network::Mainnet));
    assert!(!is_valid_prefix("456...", Network::Testnet));
}

#[test]
fn test_parse_wrong_network() {
    let m_addr_str = "f1alg2sxw32ns3ech2w7r3dmp2gl2fputkl7x7jta";
    let err = parse_address(m_addr_str, Network::Testnet).unwrap_err();
    assert_eq!(err.message(), "Not a valid Testnet address");

    let t_addr_str = "t410f2oekwcmo2pueydmaq53eic2i62crtbeyuzx2gmy";
    let err = parse_address(t_addr_str, Network::Mainnet).unwrap_err();
    assert_eq!(err.message(), "Not a valid Mainnet address");
}

#[test]
fn test_parse_eth_address_testnet() {
    let addr_str = "0xd388ab098ed3e84c0d808776440b48f685198498";
    let addr = parse_address(addr_str, Network::Testnet).unwrap();

    let exp_addr_str = "t410f2oekwcmo2pueydmaq53eic2i62crtbeyuzx2gmy";
    let exp_addr = parse_address(exp_addr_str, Network::Testnet).unwrap();

    assert_eq!(exp_addr, addr);
}

#[test]
fn test_parse_eth_address_mainnet() {
    let addr_str = "0xd388ab098ed3e84c0d808776440b48f685198498";
    let addr = parse_address(addr_str, Network::Mainnet).unwrap();

    let exp_addr_str = "f410f2oekwcmo2pueydmaq53eic2i62crtbeyuzx2gmy";
    let exp_addr = parse_address(exp_addr_str, Network::Mainnet).unwrap();

    assert_eq!(exp_addr, addr);
}

#[test]
fn test_parse_eth_address_too_short() {
    let addr_str = "0xd3";
    let e = parse_address(addr_str, Network::Mainnet).err().unwrap();

    assert_eq!(e.message(), "Invalid address length");
}

#[test]
fn test_parse_eth_address_too_long() {
    let addr_str = "0xd388ab098ed3e84c0d808776440b48f68519849812";
    let e = parse_address(addr_str, Network::Mainnet).err().unwrap();

    assert_eq!(e.message(), "Invalid address length");
}

#[test]
fn test_parse_eth_address_invalid_chars() {
    let addr_str = "0xd3!8ab098ed3e84c0d808776440b48f685198498";
    let e = parse_address(addr_str, Network::Mainnet).err().unwrap();

    assert_eq!(e.message(), "Invalid characters in address");
}

#[test]
fn test_parse_mainnet_address() {
    let addr_str = "f1alg2sxw32ns3ech2w7r3dmp2gl2fputkl7x7jta";
    let addr = parse_address(addr_str, Network::Mainnet).unwrap();

    assert_eq!(format_address(&addr, Network::Mainnet), addr_str);
}

#[test]
fn test_parse_testnet_address() {
    let addr_str = "t410f2oekwcmo2pueydmaq53eic2i62crtbeyuzx2gmy";
    let addr = parse_address(addr_str, Network::Testnet).unwrap();

    assert_eq!(format_address(&addr, Network::Testnet), addr_str);
}

#[test]
fn test_parse_trims_and_lowercases() {
    let addr = parse_address("  0XD388AB098ED3E84C0D808776440B48F685198498\n", Network::Testnet)
        .unwrap();
    let exp = parse_address("0xd388ab098ed3e84c0d808776440b48f685198498", Network::Testnet)
        .unwrap();
    assert_eq!(addr, exp);

    let native = parse_address(" T410F2OEKWCMO2PUEYDMAQ53EIC2I62CRTBEYUZX2GMY ", Network::Testnet)
        .unwrap();
    assert_eq!(native, exp);
}

#[test]
fn test_eth_payload_is_decoded_hex() {
    let addr = parse_address("0xd388ab098ed3e84c0d808776440b48f685198498", Network::Mainnet)
        .unwrap();
    assert_eq!(addr.protocol, 4);
    let mut expected = vec![10u8];
    expected.extend(hex::decode("d388ab098ed3e84c0d808776440b48f685198498").unwrap());
    assert_eq!(addr.payload, expected);
}

#[test]
fn test_parse_empty_and_bare_prefix() {
    assert!(matches!(
        parse_address("", Network::Mainnet).unwrap_err(),
        Error::InvalidFormat(Network::Mainnet)
    ));
    // "0x" alone is Ethereum-shaped text of the wrong length.
    assert_eq!(
        parse_address("0x", Network::Mainnet).unwrap_err(),
        Error::InvalidLength
    );
}

// The rendered text of every protocol is accepted by the reference
// grammar and reads back to the same address, both through this crate's
// parser and through fvm_shared's.
fn round_trips(addr: &faucet_core::address::Address) {
    for (net, fvm_net) in [
        (Network::Testnet, fvm_shared::address::Network::Testnet),
        (Network::Mainnet, fvm_shared::address::Network::Mainnet),
    ] {
        let text = format_address(addr, net);
        let ours = parse_address(&text, net).unwrap();
        assert_eq!(&ours, addr);

        let reference = fvm_net.parse_address(&text).unwrap();
        assert_eq!(reference.protocol() as u8, addr.protocol);
        assert_eq!(reference.payload().to_raw_bytes(), addr.payload);
    }
}

#[test]
fn test_format_parse_id_address() {
    let addr = parse_address("f0123456", Network::Mainnet).unwrap();
    assert_eq!(addr.protocol, 0);
    assert_eq!(format_address(&addr, Network::Mainnet), "f0123456");
    round_trips(&addr);

    let zero = parse_address("t00", Network::Testnet).unwrap();
    assert_eq!(format_address(&zero, Network::Testnet), "t00");
    round_trips(&zero);
}

#[test]
fn test_format_parse_bls_address() {
    let sk = bls_signatures::PrivateKey::new(b"a deterministic seed of 32 bytes!");
    let pk = bls_signatures::Serialize::as_bytes(&sk.public_key());
    let addr = faucet_core::address::Address::new_bls(&pk).unwrap();
    assert_eq!(addr.protocol, 3);
    round_trips(&addr);
}

#[test]
fn test_format_parse_actor_address() {
    let addr = faucet_core::address::Address {
        protocol: 2,
        payload: (0..20u8).collect(),
    };
    round_trips(&addr);
}

#[test]
fn test_format_parse_delegated_wide_namespace() {
    // A namespace above 127 exercises the multi-byte varint in the
    // delegated payload.
    let addr = faucet_core::address::Address::new_delegated(300, &[1, 2, 3]).unwrap();
    assert_eq!(addr.protocol, 4);
    round_trips(&addr);

    let empty_sub = faucet_core::address::Address::new_delegated(7, &[]).unwrap();
    round_trips(&empty_sub);
}
