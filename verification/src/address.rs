//! Account address codec: parse and format addresses across two networks
//! (main and test) and two textual encodings (the native checksummed form
//! and the Ethereum-style `0x` hex form aliased into the delegated address
//! space).
//!
//! The Ethereum-style path and the native *renderer* — prefix letter,
//! protocol digit, decimal identifiers, base32 payload and BLAKE2b
//! checksum — are this library's own verified logic, a pure function of
//! the requested network with no ambient state. Only native *parsing* is
//! trusted to the `fvm_shared` grammar, through a wrapper whose result is
//! named, not restated.

use vstd::prelude::*;

verus! {

use crate::ascii::all_ascii;
use crate::ascii::all_hex;
use crate::ascii::ascii_chars_of;
use crate::ascii::hex_decode;
use crate::ascii::hex_decode_spec;
use crate::ascii::lemma_all_ascii_concat;
use crate::ascii::lemma_ascii_chars_encode;
use crate::ascii::lower_spec;
use crate::ascii::lowercase;
use crate::ascii::normalize_spec;
use crate::ascii::slice_to_vec_u8;
use crate::ascii::string_from_ascii;
use crate::ascii::trim;
use crate::ascii::trim_spec;
use crate::base32::base32_encode;
use crate::base32::base32_spec;
use crate::base32::lemma_base32_ascii;
use crate::bigint::dec_digits_of;
use crate::bigint::is_dec_digit;
use crate::bigint::lemma_dec_digits_of;
use crate::bigint::u64_digits;
use crate::errors::Error;
use crate::errors::Network;
use crate::hash::blake2b_hash;
use crate::hash::blake2b_of;
use crate::varint::begins_with_uvarint;
use crate::varint::lemma_uvarint_prefix;
use crate::varint::uvarint;
use crate::varint::uvarint_decode;
use crate::varint::uvarint_prefix_len;
use crate::varint::uvarint_prefix_value;
use crate::varint::uvarint_spec;
use vstd::slice::slice_subrange;
use vstd::string::StringSliceAdditionalSpecFns;
use vstd::utf8::encode_utf8;

/// Length of an Ethereum-style address: `0x` and 40 hex digits.
pub const ETH_ADDRESS_LENGTH: usize = 42;

/// The reserved namespace under which Ethereum-style addresses are aliased
/// as delegated addresses.
pub const EAM_NAMESPACE: u64 = 10;

/// Protocol tag of ID addresses.
pub const PROTOCOL_ID: u8 = 0;

/// Protocol tag of secp256k1 public-key addresses.
pub const PROTOCOL_SECP256K1: u8 = 1;

/// Protocol tag of actor addresses.
pub const PROTOCOL_ACTOR: u8 = 2;

/// Protocol tag of BLS public-key addresses.
pub const PROTOCOL_BLS: u8 = 3;

/// Protocol tag of delegated addresses.
pub const PROTOCOL_DELEGATED: u8 = 4;

/// Most bytes a delegated address's sub-address may hold.
pub const MAX_SUBADDRESS_LEN: usize = 54;

/// An account address: a protocol tag together with the protocol's payload
/// bytes. For delegated addresses the payload is the varint-encoded
/// namespace followed by the sub-address. Equality is structural,
/// independent of which textual form produced the address.
#[derive(Clone, Debug, PartialEq, Eq, Hash)]
pub struct Address {
    /// Protocol tag, 0 through 4.
    pub protocol: u8,
    /// Payload bytes, in the protocol's binary layout.
    pub payload: Vec<u8>,
}

/// The payload splits as the varint encoding of namespace `ns` followed by
/// the sub-address `sub`, which fits the length cap.
pub open spec fn delegated_shape(payload: Seq<u8>, ns: u64, sub: Seq<u8>) -> bool {
    payload == uvarint_spec(ns as nat) + sub && sub.len() <= MAX_SUBADDRESS_LEN
}

/// Well-formed payload of a delegated address: a varint namespace followed
/// by a sub-address of at most [`MAX_SUBADDRESS_LEN`] bytes.
pub open spec fn delegated_wf(payload: Seq<u8>) -> bool {
    exists|ns: u64, sub: Seq<u8>| #[trigger] delegated_shape(payload, ns, sub)
}

/// Well-formedness of an address: the payload has the shape the protocol
/// demands.
pub open spec fn addr_wf(protocol: u8, payload: Seq<u8>) -> bool {
    ||| (protocol == PROTOCOL_ID && exists|id: u64| payload == #[trigger] uvarint_spec(id as nat))
    ||| (protocol == PROTOCOL_SECP256K1 && payload.len() == 20)
    ||| (protocol == PROTOCOL_ACTOR && payload.len() == 20)
    ||| (protocol == PROTOCOL_BLS && payload.len() == 48)
    ||| (protocol == PROTOCOL_DELEGATED && delegated_wf(payload))
}

impl Address {
    /// Well-formed address value.
    pub open spec fn wf(&self) -> bool {
        addr_wf(self.protocol, self.payload@)
    }

    /// Binary form of the address: the protocol byte followed by the
    /// payload.
    pub open spec fn bytes_spec(&self) -> Seq<u8> {
        seq![self.protocol] + self.payload@
    }

    /// The binary form: protocol byte, then payload bytes.
    pub fn to_bytes(&self) -> (r: Vec<u8>)
        ensures
            r@ == self.bytes_spec(),
    {
        let mut r: Vec<u8> = Vec::new();
        r.push(self.protocol);
        let mut p = self.payload.clone();
        r.append(&mut p);
        proof {
            assert(r@ =~= self.bytes_spec());
        }
        r
    }

    /// A BLS public-key address: the payload is the 48-byte public key
    /// itself. Fails on any other key length.
    pub fn new_bls(pubkey: &[u8]) -> (r: Result<Address, Error>)
        ensures
            r is Ok <==> pubkey@.len() == 48,
            r is Ok ==> r->Ok_0.protocol == PROTOCOL_BLS && r->Ok_0.payload@ == pubkey@
                && r->Ok_0.wf(),
    {
        if pubkey.len() != 48 {
            return Err(Error::InvalidKeyMaterial);
        }
        let payload = slice_to_vec_u8(pubkey);
        Ok(Address { protocol: PROTOCOL_BLS, payload })
    }

    /// A secp256k1 public-key address: the payload is the 20-byte BLAKE2b
    /// hash of the 65-byte uncompressed public key. Fails on any other key
    /// length.
    pub fn new_secp256k1(pubkey: &[u8]) -> (r: Result<Address, Error>)
        ensures
            r is Ok <==> pubkey@.len() == 65,
            r is Ok ==> r->Ok_0.protocol == PROTOCOL_SECP256K1 && r->Ok_0.payload@ == blake2b_of(
                20,
                pubkey@,
            ) && r->Ok_0.wf(),
    {
        if pubkey.len() != 65 {
            return Err(Error::InvalidKeyMaterial);
        }
        let payload = blake2b_hash(20, pubkey);
        Ok(Address { protocol: PROTOCOL_SECP256K1, payload })
    }

    /// A delegated address under the given namespace. Fails when the
    /// sub-address is longer than [`MAX_SUBADDRESS_LEN`] bytes.
    pub fn new_delegated(ns: u64, subaddress: &[u8]) -> (r: Result<Address, Error>)
        ensures
            r is Ok <==> subaddress@.len() <= MAX_SUBADDRESS_LEN,
            r is Ok ==> r->Ok_0.protocol == PROTOCOL_DELEGATED && r->Ok_0.payload@ == uvarint_spec(
                ns as nat,
            ) + subaddress@ && r->Ok_0.wf(),
    {
        if subaddress.len() > MAX_SUBADDRESS_LEN {
            return Err(Error::InvalidLength);
        }
        let mut payload = uvarint(ns);
        let mut sub = slice_to_vec_u8(subaddress);
        payload.append(&mut sub);
        proof {
            assert(delegated_shape(payload@, ns, subaddress@));
        }
        Ok(Address { protocol: PROTOCOL_DELEGATED, payload })
    }
}

/// What the native grammar makes of the byte string `s` under the chosen
/// network: the protocol tag and payload of the address, if the text is a
/// valid native address of that network. A function of its arguments alone;
/// its value is fixed by `fvm_shared`'s grammar and not restated here.
pub uninterp spec fn native_parse_of(mainnet: bool, s: Seq<u8>) -> Option<(u8, Seq<u8>)>;

/// The native textual form of an address, as ASCII bytes: the network's
/// prefix letter and the protocol digit, then the payload text — for ID
/// addresses the identifier in decimal; for delegated addresses the
/// namespace in decimal, an `f` separator, and the base32 form of the
/// sub-address followed by its checksum; for the key protocols the
/// base32 form of the payload followed by its checksum. The checksum is
/// the four-byte BLAKE2b digest of the protocol byte and payload.
pub open spec fn native_format_bytes(mainnet: bool, protocol: u8, payload: Seq<u8>) -> Seq<u8> {
    let prefix = seq![
        if mainnet {
            0x66u8
        } else {
            0x74u8
        },
        (0x30 + protocol) as u8,
    ];
    let check = blake2b_of(4, seq![protocol] + payload);
    if protocol == PROTOCOL_ID {
        prefix + dec_digits_of(uvarint_prefix_value(payload))
    } else if protocol == PROTOCOL_DELEGATED {
        prefix + dec_digits_of(uvarint_prefix_value(payload)) + seq![0x66u8] + base32_spec(
            payload.skip(uvarint_prefix_len(payload)) + check,
        )
    } else {
        prefix + base32_spec(payload + check)
    }
}

/// Relies on `fvm_shared::address::Network::parse_address`: parsing is
/// deterministic; a parsed address carries a protocol tag 0 through 4 with
/// a payload of the protocol's shape (fixed 20- or 48-byte arrays, a varint
/// identifier, or a varint namespace plus a sub-address of at most 54
/// bytes); the text of a successfully parsed address is at least three
/// bytes long and starts with the network's prefix letter; and the grammar
/// accepts this library's renderer — text equal to
/// [`native_format_bytes`] for a well-formed address parses back to
/// exactly that protocol and payload, since the renderer emits the
/// decimal, base32 and checksum forms the grammar validates.
#[verifier::external_body]
fn parse_native(mainnet: bool, s: &[u8]) -> (r: Option<Address>)
    ensures
        r is Some <==> native_parse_of(mainnet, s@) is Some,
        r is Some ==> r->0.protocol == (native_parse_of(mainnet, s@)->0).0 && r->0.payload@
            == (native_parse_of(mainnet, s@)->0).1 && r->0.wf(),
        r is Some ==> s@.len() >= 3 && s@[0] == (if mainnet {
            0x66u8
        } else {
            0x74u8
        }),
        r is None ==> (forall|p: u8, pl: Seq<u8>|
            addr_wf(p, pl) ==> s@ != #[trigger] native_format_bytes(mainnet, p, pl)),
        r is Some ==> (forall|p: u8, pl: Seq<u8>|
            addr_wf(p, pl) && s@ == #[trigger] native_format_bytes(mainnet, p, pl)
                ==> native_parse_of(mainnet, s@) == Some((p, pl))),
{
    let text = core::str::from_utf8(s).ok()?;
    let n = if mainnet {
        fvm_shared::address::Network::Mainnet
    } else {
        fvm_shared::address::Network::Testnet
    };
    let a = n.parse_address(text).ok()?;
    Some(Address { protocol: a.protocol() as u8, payload: a.payload().to_raw_bytes() })
}

/// Render an address's native text, as ASCII bytes. No ambient state is
/// read: the network is an explicit argument, and the text is a verified
/// function of it, the protocol and the payload.
fn render_native(mainnet: bool, protocol: u8, payload: &Vec<u8>) -> (r: Vec<u8>)
    requires
        addr_wf(protocol, payload@),
    ensures
        r@ == native_format_bytes(mainnet, protocol, payload@),
        all_ascii(r@),
{
    let ghost spec_bytes = native_format_bytes(mainnet, protocol, payload@);
    let mut out: Vec<u8> = Vec::new();
    out.push(if mainnet { 0x66 } else { 0x74 });
    out.push(0x30 + protocol);
    let ghost prefix = out@;
    // the checksum covers the protocol byte and the payload
    let mut ck_in: Vec<u8> = Vec::new();
    ck_in.push(protocol);
    let mut pc = payload.clone();
    ck_in.append(&mut pc);
    proof {
        assert(ck_in@ =~= seq![protocol] + payload@);
    }
    let check = blake2b_hash(4, ck_in.as_slice());
    if protocol == PROTOCOL_ID {
        proof {
            let id = choose|id: u64| payload@ == uvarint_spec(id as nat);
            assert(payload@ =~= uvarint_spec(id as nat) + Seq::<u8>::empty());
            assert(begins_with_uvarint(payload@, id, Seq::<u8>::empty()));
            lemma_uvarint_prefix(id as nat, Seq::<u8>::empty());
        }
        let (id, _used) = uvarint_decode(payload.as_slice());
        let ghost dv = dec_digits_of(id as nat);
        let mut digits = u64_digits(id);
        out.append(&mut digits);
        proof {
            lemma_dec_digits_of(id as nat);
            assert(out@ =~= spec_bytes);
            assert(all_ascii(prefix));
            assert(all_ascii(dv)) by {
                assert(forall|i: int|
                    0 <= i < dv.len() ==> is_dec_digit(#[trigger] dv[i]));
            }
            lemma_all_ascii_concat(prefix, dv);
            assert(out@ =~= prefix + dv);
        }
    } else if protocol == PROTOCOL_DELEGATED {
        proof {
            let (ns, sub) = choose|ns: u64, sub: Seq<u8>| delegated_shape(payload@, ns, sub);
            assert(begins_with_uvarint(payload@, ns, sub));
            lemma_uvarint_prefix(ns as nat, sub);
        }
        let (ns, used) = uvarint_decode(payload.as_slice());
        let ghost dv = dec_digits_of(ns as nat);
        let mut digits = u64_digits(ns);
        out.append(&mut digits);
        out.push(0x66);
        let sub_slice = slice_subrange(payload.as_slice(), used, payload.len());
        let mut b32_in = slice_to_vec_u8(sub_slice);
        let mut ck = slice_to_vec_u8(check.as_slice());
        b32_in.append(&mut ck);
        proof {
            assert(b32_in@ =~= payload@.skip(uvarint_prefix_len(payload@)) + blake2b_of(
                4,
                seq![protocol] + payload@,
            ));
        }
        let ghost b32v = base32_spec(b32_in@);
        let mut syms = base32_encode(b32_in.as_slice());
        out.append(&mut syms);
        proof {
            lemma_dec_digits_of(ns as nat);
            assert(out@ =~= spec_bytes);
            assert(all_ascii(prefix));
            assert(all_ascii(dv)) by {
                assert(forall|i: int|
                    0 <= i < dv.len() ==> is_dec_digit(#[trigger] dv[i]));
            }
            lemma_base32_ascii(b32_in@);
            lemma_all_ascii_concat(prefix, dv);
            lemma_all_ascii_concat(prefix + dv, seq![0x66u8]);
            lemma_all_ascii_concat(prefix + dv + seq![0x66u8], b32v);
            assert(out@ =~= prefix + dv + seq![0x66u8] + b32v);
        }
    } else {
        let mut b32_in = payload.clone();
        let mut ck = slice_to_vec_u8(check.as_slice());
        b32_in.append(&mut ck);
        proof {
            assert(b32_in@ =~= payload@ + blake2b_of(4, seq![protocol] + payload@));
        }
        let ghost b32v = base32_spec(b32_in@);
        let mut syms = base32_encode(b32_in.as_slice());
        out.append(&mut syms);
        proof {
            assert(out@ =~= spec_bytes);
            assert(all_ascii(prefix));
            lemma_base32_ascii(b32_in@);
            lemma_all_ascii_concat(prefix, b32v);
            assert(out@ =~= prefix + b32v);
        }
    }
    out
}

/// A byte string that starts with the network's expected prefix: the
/// network letter, or `0x`.
pub open spec fn valid_prefix_spec(s: Seq<u8>, n: Network) -> bool {
    s.len() >= 2 && match n {
        Network::Mainnet => s[0] == 0x66 || (s[0] == 0x30 && s[1] == 0x78),
        Network::Testnet => s[0] == 0x74 || (s[0] == 0x30 && s[1] == 0x78),
    }
}

fn prefix_ok(s: &[u8], n: Network) -> (r: bool)
    ensures
        r == valid_prefix_spec(s@, n),
{
    if s.len() < 2 {
        return false;
    }
    match n {
        Network::Mainnet => s[0] == 0x66 || (s[0] == 0x30 && s[1] == 0x78),
        Network::Testnet => s[0] == 0x74 || (s[0] == 0x30 && s[1] == 0x78),
    }
}

/// Whether address text (not yet normalized) starts with the prefix the
/// network expects: its letter, or `0x`. Text shorter than two bytes has no
/// valid prefix.
pub fn is_valid_prefix(s: &str, n: Network) -> (r: bool)
    ensures
        r == valid_prefix_spec(encode_utf8(s@), n),
{
    prefix_ok(s.as_bytes(), n)
}

/// What parsing owes on normalized text `s` under network `n`: either the
/// address's protocol and payload, or the exact error.
pub open spec fn parse_address_spec(s: Seq<u8>, n: Network) -> Result<(u8, Seq<u8>), Error> {
    if !valid_prefix_spec(s, n) {
        Err(Error::InvalidFormat(n))
    } else if s[0] == 0x30 && s[1] == 0x78 {
        if s.len() != ETH_ADDRESS_LENGTH {
            Err(Error::InvalidLength)
        } else if !all_hex(s.skip(2)) {
            Err(Error::InvalidCharacters)
        } else {
            Ok(
                (
                    PROTOCOL_DELEGATED,
                    uvarint_spec(EAM_NAMESPACE as nat) + hex_decode_spec(s.skip(2)),
                ),
            )
        }
    } else {
        match native_parse_of(n == Network::Mainnet, s) {
            Some(ppl) => Ok(ppl),
            None => Err(Error::InvalidFormat(n)),
        }
    }
}

/// Parse address text under the given network.
///
/// The text is trimmed and lower-cased first; the normalization is
/// ASCII-only (ASCII whitespace and letters), which is all that valid
/// address text can contain — text with other whitespace or letters is
/// not cleaned and fails below. Text whose prefix does not match the
/// network fails with `InvalidFormat`. Any text starting with `0x` —
/// including the bare prefix itself — is an Ethereum-style address: it
/// must be exactly `0x` plus 40 hex digits (`InvalidLength` /
/// `InvalidCharacters` otherwise) and becomes a delegated address under
/// the reserved namespace, with the 20 decoded bytes as sub-address.
/// Everything else goes through the native grammar; its failures surface
/// as `InvalidFormat`.
pub fn parse_address(raw: &str, n: Network) -> (r: Result<Address, Error>)
    ensures
        ({
            let s = normalize_spec(encode_utf8(raw@));
            match (r, parse_address_spec(s, n)) {
                (Ok(a), Ok(ppl)) => a.protocol == ppl.0 && a.payload@ == ppl.1 && a.wf(),
                (Err(e), Err(e2)) => e == e2,
                _ => false,
            }
        }),
{
    let bytes = raw.as_bytes();
    let trimmed = trim(bytes);
    let s = lowercase(trimmed.as_slice());
    let ghost sv = normalize_spec(encode_utf8(raw@));
    proof {
        assert(s@ == sv);
    }
    if !prefix_ok(s.as_slice(), n) {
        return Err(Error::InvalidFormat(n));
    }
    if s.len() >= 2 && s[0] == 0x30 && s[1] == 0x78 {
        if s.len() != ETH_ADDRESS_LENGTH {
            return Err(Error::InvalidLength);
        }
        let hexpart = slice_subrange(s.as_slice(), 2, ETH_ADDRESS_LENGTH);
        proof {
            assert(hexpart@ == sv.skip(2));
        }
        match hex_decode(hexpart) {
            None => Err(Error::InvalidCharacters),
            Some(sub) => {
                let mut payload = uvarint(EAM_NAMESPACE);
                let ghost subv = sub@;
                let mut sub2 = sub;
                payload.append(&mut sub2);
                proof {
                    assert(delegated_shape(payload@, EAM_NAMESPACE, subv));
                }
                Ok(Address { protocol: PROTOCOL_DELEGATED, payload })
            },
        }
    } else {
        match parse_native(n == Network::Mainnet, s.as_slice()) {
            Some(a) => Ok(a),
            None => Err(Error::InvalidFormat(n)),
        }
    }
}

/// Render an address in its native textual form under the given network.
/// The network is an explicit parameter; no ambient state is read or
/// written, so concurrent formatting for both networks is safe. The
/// rendered text is read back through the grammar under both networks, so
/// the contract can speak of parsing it.
pub fn format_address(a: &Address, n: Network) -> (r: String)
    requires
        a.wf(),
    ensures
        r@ == ascii_chars_of(native_format_bytes(n == Network::Mainnet, a.protocol, a.payload@)),
        native_parse_of(n == Network::Mainnet, encode_utf8(r@)) == Some(
            (a.protocol, a.payload@),
        ),
        native_parse_of(n != Network::Mainnet, encode_utf8(r@)) is None,
        parse_any_spec(encode_utf8(r@)) == Some((a.protocol, a.payload@)),
{
    let mainnet = n == Network::Mainnet;
    let bytes = render_native(mainnet, a.protocol, &a.payload);
    proof {
        lemma_ascii_chars_encode(bytes@);
    }
    let _same = parse_native(mainnet, bytes.as_slice());
    proof {
        // the grammar accepts the renderer's output with the same fields
        assert(native_parse_of(mainnet, bytes@) == Some((a.protocol, a.payload@)));
    }
    let _other = parse_native(!mainnet, bytes.as_slice());
    proof {
        // under the other network the prefix letter does not match
        assert(bytes@[0] == (if mainnet {
            0x66u8
        } else {
            0x74u8
        }));
        assert(native_parse_of(!mainnet, bytes@) is None);
    }
    string_from_ascii(bytes)
}

/// What network-ambiguous parsing makes of address text: the test-network
/// grammar is tried first, then the main-network grammar.
pub open spec fn parse_any_spec(s: Seq<u8>) -> Option<(u8, Seq<u8>)> {
    match native_parse_of(false, s) {
        Some(ppl) => Some(ppl),
        None => native_parse_of(true, s),
    }
}

/// Parse native address text under either network: the test network's
/// grammar is tried first, then the main network's, so the result does not
/// depend on any ambient network.
pub fn parse_address_any(s: &str) -> (r: Option<Address>)
    ensures
        r is Some <==> parse_any_spec(encode_utf8(s@)) is Some,
        r is Some ==> r->0.protocol == (parse_any_spec(encode_utf8(s@))->0).0 && r->0.payload@
            == (parse_any_spec(encode_utf8(s@))->0).1 && r->0.wf(),
{
    match parse_native(false, s.as_bytes()) {
        Some(a) => Some(a),
        None => parse_native(true, s.as_bytes()),
    }
}

} // verus!
