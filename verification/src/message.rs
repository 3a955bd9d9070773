//! Messages and their content identifiers. The canonical binary encoding
//! — a ten-element array with schema-fixed field order, minimal integers
//! and sign-prefixed magnitudes — is framed here as verified logic; its
//! 256-bit BLAKE2b digest, tagged as a version-1 DAG-CBOR identifier, is
//! the message's content identifier.
//!
//! A signed message's identifier follows a scheme-dependent rule: for a
//! BLS signature it is the bare message's identifier — the signature is
//! deliberately excluded, matching the reference chain's aggregation
//! semantics — while any other scheme hashes the whole signed envelope.

use vstd::prelude::*;

verus! {

use crate::address::Address;
use crate::bigint::TokenAmount;
use crate::bigint::be_mag_of;
use crate::bigint::be_magnitude;
use crate::cbor::cbor_bytes;
use crate::cbor::cbor_bytes_spec;
use crate::cbor::cbor_head;
use crate::cbor::cbor_head_spec;
use crate::cbor::cbor_uint;
use crate::cbor::cbor_uint_spec;
use crate::cid::BLAKE2B_256;
use crate::cid::Cid;
use crate::cid::DAG_CBOR;
use crate::hash::blake2b_256;
use crate::hash::blake2b_of;
use crate::key::Signature;
use crate::key::SignatureType;

/// The reserved method number of a plain transfer.
pub const METHOD_SEND: u64 = 0;

/// An unsigned message: a pure value type holding every field of a state
/// transition.
#[derive(Clone, Debug, PartialEq, Eq)]
pub struct Message {
    /// Message schema version.
    pub version: u64,
    /// Sender address.
    pub from: Address,
    /// Recipient address.
    pub to: Address,
    /// Sender's nonce.
    pub sequence: u64,
    /// Transferred amount.
    pub value: TokenAmount,
    /// Called method number.
    pub method_num: u64,
    /// Raw parameter bytes.
    pub params: Vec<u8>,
    /// Gas limit.
    pub gas_limit: u64,
    /// Gas fee cap.
    pub gas_fee_cap: TokenAmount,
    /// Gas premium.
    pub gas_premium: TokenAmount,
}

impl Message {
    /// Well-formed: addresses and amounts are well-formed.
    pub open spec fn wf(&self) -> bool {
        self.from.wf() && self.to.wf() && self.value.wf() && self.gas_fee_cap.wf()
            && self.gas_premium.wf()
    }
}

/// The canonical encoding of an amount: an empty byte string for zero,
/// else a sign byte (0 positive, 1 negative) followed by the big-endian
/// magnitude.
pub open spec fn amount_cbor_spec(a: TokenAmount) -> Seq<u8> {
    if a.attos.digits@ == seq![0x30u8] {
        cbor_head_spec(2, 0)
    } else {
        let inner = seq![
            if a.attos.negative {
                1u8
            } else {
                0u8
            },
        ] + be_mag_of(a.attos.digits@);
        cbor_bytes_spec(inner)
    }
}

/// Append an amount's canonical encoding.
fn amount_cbor(out: &mut Vec<u8>, a: &TokenAmount)
    requires
        a.wf(),
    ensures
        final(out)@ == old(out)@ + amount_cbor_spec(*a),
{
    if a.attos.digits.len() == 1 && a.attos.digits[0] == 0x30 {
        proof {
            assert(a.attos.digits@ =~= seq![0x30u8]);
        }
        cbor_head(out, 2, 0);
    } else {
        proof {
            assert(a.attos.digits@ != seq![0x30u8]) by {
                if a.attos.digits@ =~= seq![0x30u8] {
                    assert(a.attos.digits@.len() == 1 && a.attos.digits@[0] == 0x30);
                }
            }
        }
        let mag = be_magnitude(&a.attos.digits);
        let mut inner: Vec<u8> = Vec::new();
        inner.push(if a.attos.negative { 1 } else { 0 });
        let mut m = mag;
        inner.append(&mut m);
        cbor_bytes(out, inner.as_slice());
        proof {
            assert(inner@ =~= seq![
                if a.attos.negative {
                    1u8
                } else {
                    0u8
                },
            ] + be_mag_of(a.attos.digits@));
        }
    }
}

/// The canonical binary encoding of a message: a ten-element array in
/// schema order — version, to, from, sequence, value, gas limit, gas fee
/// cap, gas premium, method, params — with addresses and params as byte
/// strings and amounts in their sign-and-magnitude form.
pub open spec fn message_cbor_spec(m: Message) -> Seq<u8> {
    cbor_head_spec(4, 10) + cbor_uint_spec(m.version) + cbor_bytes_spec(m.to.bytes_spec())
        + cbor_bytes_spec(m.from.bytes_spec()) + cbor_uint_spec(m.sequence) + amount_cbor_spec(
        m.value,
    ) + cbor_uint_spec(m.gas_limit) + amount_cbor_spec(m.gas_fee_cap) + amount_cbor_spec(
        m.gas_premium,
    ) + cbor_uint_spec(m.method_num) + cbor_bytes_spec(m.params@)
}

/// The canonical binary encoding of a message.
pub fn message_cbor(m: &Message) -> (r: Vec<u8>)
    requires
        m.wf(),
    ensures
        r@ == message_cbor_spec(*m),
{
    let mut out: Vec<u8> = Vec::new();
    cbor_head(&mut out, 4, 10);
    cbor_uint(&mut out, m.version);
    let tb = m.to.to_bytes();
    cbor_bytes(&mut out, tb.as_slice());
    let fb = m.from.to_bytes();
    cbor_bytes(&mut out, fb.as_slice());
    cbor_uint(&mut out, m.sequence);
    amount_cbor(&mut out, &m.value);
    cbor_uint(&mut out, m.gas_limit);
    amount_cbor(&mut out, &m.gas_fee_cap);
    amount_cbor(&mut out, &m.gas_premium);
    cbor_uint(&mut out, m.method_num);
    cbor_bytes(&mut out, m.params.as_slice());
    proof {
        assert(out@ =~= message_cbor_spec(*m));
    }
    out
}

/// A zero-gas transfer: the reserved send method, empty parameters, zero
/// gas fields, sequence zero, version zero.
pub fn message_transfer(from: Address, to: Address, value: TokenAmount) -> (r: Message)
    ensures
        r.version == 0 && r.sequence == 0 && r.method_num == METHOD_SEND,
        r.from == from && r.to == to && r.value == value,
        r.params@.len() == 0 && r.gas_limit == 0,
        r.gas_fee_cap.value_spec() == 0 && r.gas_premium.value_spec() == 0,
        from.wf() && to.wf() && value.wf() ==> r.wf(),
{
    Message {
        version: 0,
        from,
        to,
        sequence: 0,
        value,
        method_num: METHOD_SEND,
        params: Vec::new(),
        gas_limit: 0,
        gas_fee_cap: TokenAmount::zero(),
        gas_premium: TokenAmount::zero(),
    }
}

/// A message's content identifier: the 256-bit BLAKE2b digest of its
/// canonical encoding, tagged as a version-1 DAG-CBOR identifier.
pub fn message_cid(msg: &Message) -> (r: Cid)
    requires
        msg.wf(),
    ensures
        r.version == 1 && r.codec == DAG_CBOR && r.hash_code == BLAKE2B_256,
        r.digest@ == blake2b_of(32, message_cbor_spec(*msg)),
        r.digest@.len() == 32,
        r.wf(),
{
    let bytes = message_cbor(msg);
    let digest = blake2b_256(bytes.as_slice());
    Cid::new_v1(DAG_CBOR, BLAKE2B_256, digest)
}

/// A message together with a signature over its content identifier.
#[derive(Clone, Debug, PartialEq, Eq)]
pub struct SignedMessage {
    /// The signed message.
    pub message: Message,
    /// The signature.
    pub signature: Signature,
}

/// The canonical encoding of a signature: a byte string of the scheme tag
/// byte followed by the signature bytes.
pub open spec fn signature_cbor_spec(s: Signature) -> Seq<u8> {
    cbor_bytes_spec(seq![s.sig_type.code_spec() as u8] + s.bytes@)
}

/// The canonical encoding of a signed envelope: a two-entry map from the
/// field names `message` and `signature`, in that order, to the message's
/// and the signature's canonical encodings.
pub open spec fn signed_cbor_spec(sm: SignedMessage) -> Seq<u8> {
    cbor_head_spec(5, 2) + cbor_head_spec(3, 7) + seq![
        0x6du8,
        0x65u8,
        0x73u8,
        0x73u8,
        0x61u8,
        0x67u8,
        0x65u8,
    ] + message_cbor_spec(sm.message) + cbor_head_spec(3, 9) + seq![
        0x73u8,
        0x69u8,
        0x67u8,
        0x6eu8,
        0x61u8,
        0x74u8,
        0x75u8,
        0x72u8,
        0x65u8,
    ] + signature_cbor_spec(sm.signature)
}

/// The canonical encoding of a signed envelope.
pub fn signed_cbor(sm: &SignedMessage) -> (r: Vec<u8>)
    requires
        sm.message.wf(),
    ensures
        r@ == signed_cbor_spec(*sm),
{
    let mut out: Vec<u8> = Vec::new();
    cbor_head(&mut out, 5, 2);
    cbor_head(&mut out, 3, 7);
    out.push(0x6d);
    out.push(0x65);
    out.push(0x73);
    out.push(0x73);
    out.push(0x61);
    out.push(0x67);
    out.push(0x65);
    let mut mc = message_cbor(&sm.message);
    out.append(&mut mc);
    cbor_head(&mut out, 3, 9);
    out.push(0x73);
    out.push(0x69);
    out.push(0x67);
    out.push(0x6e);
    out.push(0x61);
    out.push(0x74);
    out.push(0x75);
    out.push(0x72);
    out.push(0x65);
    let mut inner: Vec<u8> = Vec::new();
    inner.push(sm.signature.sig_type.code() as u8);
    let mut sb = sm.signature.bytes.clone();
    inner.append(&mut sb);
    cbor_bytes(&mut out, inner.as_slice());
    proof {
        assert(inner@ =~= seq![sm.signature.sig_type.code_spec() as u8] + sm.signature.bytes@);
        assert(out@ =~= signed_cbor_spec(*sm));
    }
    out
}

impl SignedMessage {
    /// Checks if the signed message is a BLS message.
    pub fn is_bls(&self) -> (r: bool)
        ensures
            r == (self.signature.sig_type == SignatureType::BLS),
    {
        match self.signature.sig_type {
            SignatureType::BLS => true,
            SignatureType::Secp256k1 => false,
        }
    }

    /// The signed message's content identifier. For a BLS signature this
    /// is the bare message's identifier — the signature is deliberately
    /// excluded — while for any other scheme the identifier covers the
    /// whole signed envelope. This asymmetry is a hard domain rule.
    pub fn cid(&self) -> (r: Cid)
        requires
            self.message.wf(),
        ensures
            r.version == 1 && r.codec == DAG_CBOR && r.hash_code == BLAKE2B_256,
            r.digest@.len() == 32,
            self.signature.sig_type == SignatureType::BLS ==> r.digest@ == blake2b_of(
                32,
                message_cbor_spec(self.message),
            ),
            self.signature.sig_type != SignatureType::BLS ==> r.digest@ == blake2b_of(
                32,
                signed_cbor_spec(*self),
            ),
            r.wf(),
    {
        if self.is_bls() {
            message_cid(&self.message)
        } else {
            let bytes = signed_cbor(self);
            let digest = blake2b_256(bytes.as_slice());
            Cid::new_v1(DAG_CBOR, BLAKE2B_256, digest)
        }
    }
}

} // verus!
