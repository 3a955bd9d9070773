//! Core codec and content-addressing library for Filecoin-style account
//! messages: address parsing and formatting across two networks and two
//! textual encodings, key and signature handling for BLS and secp256k1,
//! canonical binary (CBOR) encoding with BLAKE2b content identifiers, and a
//! dual-representation ("lotus JSON") interchange layer whose conversions are
//! proved lossless where they are this crate's own logic.

pub mod address;
pub mod ascii;
pub mod b64;
pub mod base32;
pub mod bigint;
pub mod cbor;
pub mod cid;
pub mod errors;
pub mod faucet;
pub mod hash;
pub mod key;
pub mod lotus_json;
pub mod message;
pub mod varint;
