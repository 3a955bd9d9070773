//! Key and signature subsystem: derive public keys and addresses from
//! private key material, decode secret blobs, and sign message digests
//! under the two supported schemes. The scheme is always an explicit tag,
//! never inferred from key length or content.

use vstd::prelude::*;

verus! {

use crate::address::Address;
use crate::ascii::all_hex;
use crate::ascii::hex_decode;
use crate::ascii::hex_decode_spec;
use crate::ascii::utf8_to_string;
use crate::b64::base64_decode;
use crate::b64::base64_decode_of;
use crate::errors::Error;
use crate::hash::blake2b_of;
use vstd::string::StringSliceAdditionalSpecFns;
use vstd::utf8::decode_utf8;
use vstd::utf8::encode_utf8;
use vstd::utf8::valid_utf8;

/// The scheme an integer tag names: 1 is secp256k1, 2 is BLS, and no
/// other tag is recognized.
pub open spec fn scheme_of_code(c: u64) -> Option<SignatureType> {
    if c == 1 {
        Some(SignatureType::Secp256k1)
    } else if c == 2 {
        Some(SignatureType::BLS)
    } else {
        None
    }
}

/// The two supported signature schemes, dispatched everywhere by this
/// explicit tag.
#[derive(Clone, Copy, Debug, PartialEq, Eq, Hash, Structural)]
pub enum SignatureType {
    Secp256k1,
    BLS,
}

impl SignatureType {
    /// The integer tag the ecosystem assigns the scheme.
    pub open spec fn code_spec(&self) -> u64 {
        match self {
            SignatureType::Secp256k1 => 1,
            SignatureType::BLS => 2,
        }
    }

    /// The integer tag of the scheme.
    pub fn code(&self) -> (r: u64)
        ensures
            r == self.code_spec(),
    {
        match self {
            SignatureType::Secp256k1 => 1,
            SignatureType::BLS => 2,
        }
    }

    /// The scheme a tag names, if any: 1 is secp256k1, 2 is BLS.
    pub fn from_code(c: u64) -> (r: Option<SignatureType>)
        ensures
            r == scheme_of_code(c),
    {
        if c == 1 {
            Some(SignatureType::Secp256k1)
        } else if c == 2 {
            Some(SignatureType::BLS)
        } else {
            None
        }
    }
}

/// A signature: its scheme tag and its wire bytes.
#[derive(Clone, Debug, PartialEq, Eq, Hash)]
pub struct Signature {
    /// The scheme that produced the signature.
    pub sig_type: SignatureType,
    /// The signature bytes: 96 bytes for BLS; for secp256k1 the 64-byte
    /// (r, s) encoding followed by the one-byte recovery id.
    pub bytes: Vec<u8>,
}

/// Secret key material: a scheme tag and the raw private key bytes.
#[derive(Clone, Debug, PartialEq, Eq)]
pub struct KeyInfo {
    /// The signature scheme the key belongs to.
    pub sig_type: SignatureType,
    /// The raw private key bytes.
    pub private_key: Vec<u8>,
}

/// The public key the BLS scheme derives from private key bytes, when they
/// are a valid 32-byte scalar. A function of its argument alone.
pub uninterp spec fn bls_pub_of(key: Seq<u8>) -> Option<Seq<u8>>;

/// The BLS signature over a message. A function of its arguments alone:
/// BLS signing is deterministic.
pub uninterp spec fn bls_sig_of(key: Seq<u8>, msg: Seq<u8>) -> Seq<u8>;

/// The uncompressed public key the secp256k1 scheme derives from private
/// key bytes, when they are a valid 32-byte scalar.
pub uninterp spec fn secp_pub_of(key: Seq<u8>) -> Option<Seq<u8>>;

/// The recoverable secp256k1 signature over a 32-byte digest: the 64-byte
/// (r, s) encoding and the recovery id. A function of its arguments alone:
/// the nonce is derived deterministically.
pub uninterp spec fn secp_sig_of(key: Seq<u8>, digest: Seq<u8>) -> (Seq<u8>, u8);

/// Relies on bls_signatures' `PrivateKey::from_bytes`, `public_key` and
/// `Serialize::as_bytes`: derivation is deterministic; `from_bytes`
/// accepts only 32-byte encodings of valid scalars; a public key
/// serializes to 48 bytes.
#[verifier::external_body]
fn bls_public_key(key: &[u8]) -> (r: Option<Vec<u8>>)
    ensures
        r is Some <==> bls_pub_of(key@) is Some,
        r is Some ==> r->0@ == bls_pub_of(key@)->0 && r->0@.len() == 48,
        key@.len() != 32 ==> r is None,
{
    let sk = match <bls_signatures::PrivateKey as bls_signatures::Serialize>::from_bytes(key) {
        Ok(sk) => sk,
        Err(_) => {
            return None;
        },
    };
    Some(bls_signatures::Serialize::as_bytes(&sk.public_key()))
}

/// Relies on bls_signatures' `PrivateKey::{from_bytes, sign}` and
/// `Serialize::as_bytes`: signing succeeds exactly when the key bytes are
/// a valid private key, is deterministic, and serializes to 96 bytes.
#[verifier::external_body]
fn bls_sign_raw(key: &[u8], msg: &[u8]) -> (r: Option<Vec<u8>>)
    ensures
        r is Some <==> bls_pub_of(key@) is Some,
        r is Some ==> r->0@ == bls_sig_of(key@, msg@) && r->0@.len() == 96,
{
    let sk = match <bls_signatures::PrivateKey as bls_signatures::Serialize>::from_bytes(key) {
        Ok(sk) => sk,
        Err(_) => {
            return None;
        },
    };
    Some(bls_signatures::Serialize::as_bytes(&sk.sign(msg)))
}

/// Relies on libsecp256k1's `SecretKey::parse_slice`,
/// `PublicKey::from_secret_key` and `serialize`: derivation is
/// deterministic; `parse_slice` accepts only 32-byte encodings of valid
/// scalars; the uncompressed public key is 65 bytes.
#[verifier::external_body]
fn secp_public_key(key: &[u8]) -> (r: Option<Vec<u8>>)
    ensures
        r is Some <==> secp_pub_of(key@) is Some,
        r is Some ==> r->0@ == secp_pub_of(key@)->0 && r->0@.len() == 65,
        key@.len() != 32 ==> r is None,
{
    let sk = libsecp256k1::SecretKey::parse_slice(key).ok()?;
    Some(libsecp256k1::PublicKey::from_secret_key(&sk).serialize().to_vec())
}

/// Relies on libsecp256k1's `sign` with `SecretKey::parse_slice` and
/// `Message::parse_slice`: signing succeeds exactly when the key bytes are
/// a valid private key; the nonce is deterministic, the signature
/// serializes to 64 bytes, and the recovery id to one byte.
#[verifier::external_body]
fn secp_sign_raw(key: &[u8], digest32: &[u8]) -> (r: Option<(Vec<u8>, u8)>)
    requires
        digest32@.len() == 32,
    ensures
        r is Some <==> secp_pub_of(key@) is Some,
        r is Some ==> (r->0).0@ == secp_sig_of(key@, digest32@).0 && (r->0).1 == secp_sig_of(
            key@,
            digest32@,
        ).1 && (r->0).0@.len() == 64,
{
    let sk = libsecp256k1::SecretKey::parse_slice(key).ok()?;
    let m = libsecp256k1::Message::parse_slice(digest32).ok()?;
    let (sig, rid) = libsecp256k1::sign(&m, &sk);
    Some((sig.serialize().to_vec(), rid.serialize()))
}

/// What the "Type" and "PrivateKey" fields of a JSON secret blob hold: the
/// integer scheme tag and the base64 private-key text, if the text is a
/// JSON object carrying both. A function of the text alone.
pub uninterp spec fn key_json_of(s: Seq<char>) -> Option<(u64, Seq<char>)>;

/// Relies on serde_json's `from_str` and `Value::{get, as_u64, as_str}`:
/// reading the `Type` field as an unsigned integer and the `PrivateKey`
/// field as a string is a deterministic function of the text.
#[verifier::external_body]
fn key_json_fields(s: &str) -> (r: Option<(u64, String)>)
    ensures
        r is Some <==> key_json_of(s@) is Some,
        r is Some ==> (r->0).0 == (key_json_of(s@)->0).0 && (r->0).1@ == (key_json_of(s@)->0).1,
{
    let v: serde_json::Value = serde_json::from_str(s).ok()?;
    let tag = v.get("Type")?.as_u64()?;
    let pk = v.get("PrivateKey")?.as_str()?;
    Some((tag, pk.to_string()))
}

/// Return the public key for a given private key and scheme.
pub fn to_public(sig_type: SignatureType, private_key: &[u8]) -> (r: Result<Vec<u8>, Error>)
    ensures
        sig_type == SignatureType::BLS ==> (r is Ok <==> bls_pub_of(private_key@) is Some),
        sig_type == SignatureType::BLS && r is Ok ==> r->Ok_0@ == bls_pub_of(private_key@)->0
            && r->Ok_0@.len() == 48,
        sig_type == SignatureType::Secp256k1 ==> (r is Ok <==> secp_pub_of(private_key@)
            is Some),
        sig_type == SignatureType::Secp256k1 && r is Ok ==> r->Ok_0@ == secp_pub_of(
            private_key@,
        )->0 && r->Ok_0@.len() == 65,
        r is Err ==> r->Err_0 == Error::InvalidKeyMaterial,
{
    match sig_type {
        SignatureType::BLS => match bls_public_key(private_key) {
            Some(pk) => Ok(pk),
            None => Err(Error::InvalidKeyMaterial),
        },
        SignatureType::Secp256k1 => match secp_public_key(private_key) {
            Some(pk) => Ok(pk),
            None => Err(Error::InvalidKeyMaterial),
        },
    }
}

/// Return a new address of the given scheme for the supplied public key:
/// a BLS address embeds the 48-byte key, a secp256k1 address the 20-byte
/// BLAKE2b hash of the 65-byte key.
pub fn new_address(sig_type: SignatureType, public_key: &[u8]) -> (r: Result<Address, Error>)
    ensures
        sig_type == SignatureType::BLS ==> (r is Ok <==> public_key@.len() == 48),
        sig_type == SignatureType::BLS && r is Ok ==> r->Ok_0.protocol == 3 && r->Ok_0.payload@
            == public_key@,
        sig_type == SignatureType::Secp256k1 ==> (r is Ok <==> public_key@.len() == 65),
        sig_type == SignatureType::Secp256k1 && r is Ok ==> r->Ok_0.protocol == 1
            && r->Ok_0.payload@ == blake2b_of(20, public_key@),
        r is Ok ==> r->Ok_0.wf(),
        r is Err ==> r->Err_0 == Error::InvalidKeyMaterial,
{
    match sig_type {
        SignatureType::BLS => match Address::new_bls(public_key) {
            Ok(a) => Ok(a),
            Err(_) => Err(Error::InvalidKeyMaterial),
        },
        SignatureType::Secp256k1 => match Address::new_secp256k1(public_key) {
            Ok(a) => Ok(a),
            Err(_) => Err(Error::InvalidKeyMaterial),
        },
    }
}

/// Sign a message under the given scheme. BLS signs the raw bytes,
/// yielding 96 signature bytes; secp256k1 first hashes them with 256-bit
/// BLAKE2b and appends the one-byte recovery id to the 64-byte (r, s)
/// encoding, 65 bytes in all.
pub fn sign(sig_type: SignatureType, private_key: &[u8], msg: &[u8]) -> (r: Result<
    Signature,
    Error,
>)
    ensures
        sig_type == SignatureType::BLS ==> (r is Ok <==> bls_pub_of(private_key@) is Some),
        sig_type == SignatureType::BLS && r is Ok ==> r->Ok_0.sig_type == SignatureType::BLS
            && r->Ok_0.bytes@ == bls_sig_of(private_key@, msg@),
        sig_type == SignatureType::Secp256k1 ==> (r is Ok <==> secp_pub_of(private_key@)
            is Some),
        sig_type == SignatureType::Secp256k1 && r is Ok ==> r->Ok_0.sig_type
            == SignatureType::Secp256k1 && r->Ok_0.bytes@ == secp_sig_of(
            private_key@,
            blake2b_of(32, msg@),
        ).0 + seq![secp_sig_of(private_key@, blake2b_of(32, msg@)).1],
        sig_type == SignatureType::Secp256k1 && r is Ok ==> r->Ok_0.bytes@.len() == 65,
        sig_type == SignatureType::BLS && r is Ok ==> r->Ok_0.bytes@.len() == 96,
        r is Err ==> r->Err_0 == Error::InvalidKeyMaterial,
{
    match sig_type {
        SignatureType::BLS => match bls_sign_raw(private_key, msg) {
            Some(bytes) => Ok(Signature { sig_type: SignatureType::BLS, bytes }),
            None => Err(Error::InvalidKeyMaterial),
        },
        SignatureType::Secp256k1 => {
            let digest = crate::hash::blake2b_256(msg);
            match secp_sign_raw(private_key, digest.as_slice()) {
                Some((sig64, rid)) => {
                    let mut bytes = sig64;
                    bytes.push(rid);
                    proof {
                        assert(bytes@ =~= secp_sig_of(private_key@, blake2b_of(32, msg@)).0
                            + seq![secp_sig_of(private_key@, blake2b_of(32, msg@)).1]);
                    }
                    Ok(Signature { sig_type: SignatureType::Secp256k1, bytes })
                },
                None => Err(Error::InvalidKeyMaterial),
            }
        },
    }
}

/// What decoding a hex-encoded secret blob yields: the scheme and the
/// private key bytes, when every stage succeeds — hex text, UTF-8, a JSON
/// object with the two fields, valid base64, and a known scheme tag.
pub open spec fn key_info_parse_spec(text: Seq<u8>) -> Option<(SignatureType, Seq<u8>)> {
    if !(text.len() % 2 == 0 && all_hex(text)) {
        None
    } else if !valid_utf8(hex_decode_spec(text)) {
        None
    } else {
        match key_json_of(decode_utf8(hex_decode_spec(text))) {
            None => None,
            Some(fields) => match base64_decode_of(fields.1) {
                None => None,
                Some(sk) => if fields.0 == 1 {
                    Some((SignatureType::Secp256k1, sk))
                } else if fields.0 == 2 {
                    Some((SignatureType::BLS, sk))
                } else {
                    None
                },
            },
        }
    }
}

impl KeyInfo {
    /// Decode a secret blob: a hex string whose bytes are UTF-8 JSON
    /// `{"Type": <tag>, "PrivateKey": <base64>}`. Any failing stage —
    /// bad hex, bad UTF-8, bad JSON, bad base64, unknown tag — yields
    /// `InvalidKeyMaterial`, and nothing is partially constructed.
    pub fn parse(s: &str) -> (r: Result<KeyInfo, Error>)
        ensures
            r is Ok <==> key_info_parse_spec(encode_utf8(s@)) is Some,
            r is Ok ==> r->Ok_0.sig_type == (key_info_parse_spec(encode_utf8(s@))->0).0
                && r->Ok_0.private_key@ == (key_info_parse_spec(encode_utf8(s@))->0).1,
            r is Err ==> r->Err_0 == Error::InvalidKeyMaterial,
    {
        let decoded = match hex_decode(s.as_bytes()) {
            Some(d) => d,
            None => {
                return Err(Error::InvalidKeyMaterial);
            },
        };
        let text = match utf8_to_string(decoded.as_slice()) {
            Some(t) => t,
            None => {
                return Err(Error::InvalidKeyMaterial);
            },
        };
        let fields = match key_json_fields(text.as_str()) {
            Some(f) => f,
            None => {
                return Err(Error::InvalidKeyMaterial);
            },
        };
        let sk = match base64_decode(fields.1.as_str()) {
            Some(b) => b,
            None => {
                return Err(Error::InvalidKeyMaterial);
            },
        };
        let sig_type = match SignatureType::from_code(fields.0) {
            Some(t) => t,
            None => {
                return Err(Error::InvalidKeyMaterial);
            },
        };
        Ok(KeyInfo { sig_type, private_key: sk })
    }
}

impl core::str::FromStr for KeyInfo {
    type Err = Error;

    fn from_str(s: &str) -> Result<KeyInfo, Error> {
        KeyInfo::parse(s)
    }
}

/// A key: its secret material together with the address derived from it.
/// Construction fails unless public-key and address derivation succeed,
/// so the address always matches the material.
#[derive(Clone, Debug, PartialEq, Eq)]
pub struct Key {
    /// The secret material.
    pub key_info: KeyInfo,
    /// The address derived from the material's public key.
    pub address: Address,
}

/// The derived address of key material, when the scheme accepts the
/// private key: for BLS the address embeds the public key, for secp256k1
/// its 20-byte BLAKE2b hash.
pub open spec fn derived_address_spec(ki: KeyInfo) -> Option<(u8, Seq<u8>)> {
    match ki.sig_type {
        SignatureType::BLS => match bls_pub_of(ki.private_key@) {
            Some(pk) => Some((3u8, pk)),
            None => None,
        },
        SignatureType::Secp256k1 => match secp_pub_of(ki.private_key@) {
            Some(pk) => Some((1u8, blake2b_of(20, pk))),
            None => None,
        },
    }
}

impl Key {
    /// Derive a key from its material: derive the public key, then the
    /// address. Fails with `InvalidKeyMaterial` when either derivation
    /// fails, constructing nothing.
    pub fn try_from(key_info: KeyInfo) -> (r: Result<Key, Error>)
        ensures
            r is Ok <==> derived_address_spec(key_info) is Some,
            r is Ok ==> r->Ok_0.key_info == key_info && r->Ok_0.address.protocol == (
            derived_address_spec(key_info)->0).0 && r->Ok_0.address.payload@ == (
            derived_address_spec(key_info)->0).1 && r->Ok_0.address.wf(),
            r is Err ==> r->Err_0 == Error::InvalidKeyMaterial,
    {
        let public_key = match to_public(key_info.sig_type, key_info.private_key.as_slice()) {
            Ok(pk) => pk,
            Err(e) => {
                return Err(e);
            },
        };
        let address = match new_address(key_info.sig_type, public_key.as_slice()) {
            Ok(a) => a,
            Err(e) => {
                return Err(e);
            },
        };
        Ok(Key { key_info, address })
    }
}

} // verus!
