//! Faucet-side pure logic: the drip amounts and rate-limit window, the
//! amount-ceiling decision, signing a message's content identifier, and
//! explorer URL construction. All I/O — secret loading, the admission
//! gate, submission — belongs to the calling workflow; everything here is
//! a pure function of its inputs.

use vstd::prelude::*;

verus! {

use crate::bigint::BigInt;
use crate::bigint::TokenAmount;
use crate::bigint::dec_value;
use crate::bigint::pow10;
use crate::errors::Error;
use crate::key::Key;
use crate::key::SignatureType;
use crate::key::bls_pub_of;
use crate::key::bls_sig_of;
use crate::key::secp_pub_of;
use crate::key::secp_sig_of;
use crate::key::sign;
use crate::hash::blake2b_of;
use crate::message::Message;
use crate::message::SignedMessage;
use crate::message::message_cbor_spec;
use crate::message::message_cid;
use crate::varint::uvarint_spec;

/// The cooldown the admission-control collaborator imposes between drips,
/// in seconds.
pub const RATE_LIMIT_SECONDS: i64 = 600;

/// Unit symbol of main-network funds.
pub fn fil_mainnet_unit() -> (r: &'static str)
    ensures
        r@ == "FIL"@,
{
    "FIL"
}

/// Unit symbol of test-network funds.
pub fn fil_calibnet_unit() -> (r: &'static str)
    ensures
        r@ == "tFIL"@,
{
    "tFIL"
}

/// The value of a one followed by `k` zeros is ten to the `k`.
proof fn lemma_one_then_zeros(s: Seq<u8>, k: nat)
    requires
        s.len() == k + 1,
        s[0] == 0x31,
        forall|i: int| 1 <= i <= k ==> s[i] == 0x30,
    ensures
        dec_value(s) == pow10(k),
    decreases k,
{
    if k == 0 {
        reveal_with_fuel(dec_value, 3);
        assert(s.drop_last().len() == 0);
        assert(s.last() == s[0]);
    } else {
        let d = s.drop_last();
        assert(forall|i: int| 0 <= i < d.len() ==> #[trigger] d[i] == s[i]);
        lemma_one_then_zeros(d, (k - 1) as nat);
        assert(s.last() == s[k as int]);
    }
}

/// A one followed by `zeros` zero digits, as a digit vector.
fn one_then_zeros(zeros: usize) -> (r: Vec<u8>)
    ensures
        r@.len() == zeros + 1,
        r@[0] == 0x31,
        forall|i: int| 1 <= i <= zeros ==> r@[i] == 0x30,
        dec_value(r@) == pow10(zeros as nat),
{
    let mut r: Vec<u8> = Vec::new();
    r.push(0x31);
    let mut i: usize = 0;
    while i < zeros
        invariant
            0 <= i <= zeros,
            r@.len() == i + 1,
            r@[0] == 0x31,
            forall|k: int| 1 <= k <= i ==> r@[k] == 0x30,
        decreases zeros - i,
    {
        r.push(0x30);
        i = i + 1;
    }
    proof {
        lemma_one_then_zeros(r@, zeros as nat);
    }
    r
}

/// The amount dripped on the main network: a hundredth of a whole unit,
/// ten to the sixteenth attos.
pub fn mainnet_drip_amount() -> (r: TokenAmount)
    ensures
        r.wf(),
        !r.attos.negative,
        r.value_spec() == pow10(16),
{
    let digits = one_then_zeros(16);
    TokenAmount { attos: BigInt { negative: false, digits } }
}

/// The amount dripped on the test network: one whole unit, ten to the
/// eighteenth attos.
pub fn calibnet_drip_amount() -> (r: TokenAmount)
    ensures
        r.wf(),
        !r.attos.negative,
        r.value_spec() == pow10(18),
{
    let digits = one_then_zeros(18);
    TokenAmount { attos: BigInt { negative: false, digits } }
}

/// Whether a drip request stays within the ceiling: the decision the
/// signing workflow takes before any signing may proceed.
pub fn within_drip_limit(msg: &Message, limit: &TokenAmount) -> (r: bool)
    requires
        msg.wf(),
        limit.wf(),
    ensures
        r == (msg.value.value_spec() <= limit.value_spec()),
{
    !msg.value.gt(limit)
}

/// The binary form of a message's content identifier, as signed by the
/// key subsystem.
pub open spec fn message_cid_bytes_spec(m: Message) -> Seq<u8> {
    uvarint_spec(1) + uvarint_spec(0x71) + uvarint_spec(0xb220) + uvarint_spec(32) + blake2b_of(
        32,
        message_cbor_spec(m),
    )
}

/// Sign a message with the given key: the signature is taken over the
/// binary form of the message's content identifier, under the key's
/// scheme. Pure: no logging, no persistence of key material.
pub fn sign_message(msg: Message, key: &Key) -> (r: Result<SignedMessage, Error>)
    requires
        msg.wf(),
    ensures
        key.key_info.sig_type == SignatureType::BLS ==> (r is Ok <==> bls_pub_of(
            key.key_info.private_key@,
        ) is Some),
        key.key_info.sig_type == SignatureType::Secp256k1 ==> (r is Ok <==> secp_pub_of(
            key.key_info.private_key@,
        ) is Some),
        r is Ok ==> r->Ok_0.message == msg && r->Ok_0.signature.sig_type
            == key.key_info.sig_type,
        key.key_info.sig_type == SignatureType::BLS && r is Ok ==> r->Ok_0.signature.bytes@
            == bls_sig_of(key.key_info.private_key@, message_cid_bytes_spec(msg)),
        key.key_info.sig_type == SignatureType::Secp256k1 && r is Ok
            ==> r->Ok_0.signature.bytes@ == secp_sig_of(
            key.key_info.private_key@,
            blake2b_of(32, message_cid_bytes_spec(msg)),
        ).0 + seq![
            secp_sig_of(
                key.key_info.private_key@,
                blake2b_of(32, message_cid_bytes_spec(msg)),
            ).1,
        ],
        r is Err ==> r->Err_0 == Error::InvalidKeyMaterial,
{
    let cid = message_cid(&msg);
    let cid_bytes = cid.to_bytes();
    proof {
        assert(cid_bytes@ =~= message_cid_bytes_spec(msg));
    }
    let signature = match sign(
        key.key_info.sig_type,
        key.key_info.private_key.as_slice(),
        cid_bytes.as_slice(),
    ) {
        Ok(s) => s,
        Err(e) => {
            return Err(e);
        },
    };
    Ok(SignedMessage { message: msg, signature })
}

/// Types of search paths in a chain explorer.
#[derive(Copy, Clone, Debug, PartialEq, Eq, Structural)]
pub enum SearchPath {
    Transaction,
    Address,
}

impl SearchPath {
    /// The path segment the explorer expects.
    pub fn as_str(&self) -> (r: &'static str)
        ensures
            self == SearchPath::Transaction ==> r@ == "txs/"@,
            self == SearchPath::Address ==> r@ == "address/"@,
    {
        match self {
            SearchPath::Transaction => "txs/",
            SearchPath::Address => "address/",
        }
    }
}

/// What joining a reference onto a base URL yields, if the base parses
/// and the join succeeds. A function of the two texts alone, fixed by the
/// `url` crate's resolution rules.
pub uninterp spec fn url_join_of(base: Seq<char>, reference: Seq<char>) -> Option<Seq<char>>;

/// Relies on the `url` crate's `Url::parse` and `Url::join`: resolution
/// is a deterministic function of the two texts.
#[verifier::external_body]
fn url_join(base: &str, reference: &str) -> (r: Option<String>)
    ensures
        r is Some <==> url_join_of(base@, reference@) is Some,
        r is Some ==> r->0@ == url_join_of(base@, reference@)->0,
{
    let u = url::Url::parse(base).ok()?;
    Some(u.join(reference).ok()?.to_string())
}

/// What the explorer URL for an identifier under a search path is: the
/// path joined onto the base, then the identifier joined onto that.
pub open spec fn format_url_spec(base: Seq<char>, path: Seq<char>, identifier: Seq<char>) -> Option<
    Seq<char>,
> {
    match url_join_of(base, path) {
        None => None,
        Some(joined) => url_join_of(joined, identifier),
    }
}

/// Construct a URL combining a base URL, a search path and an identifier.
pub fn format_url(base_url: &str, path: SearchPath, identifier: &str) -> (r: Option<String>)
    ensures
        r is Some <==> format_url_spec(base_url@, path_text(path), identifier@) is Some,
        r is Some ==> r->0@ == format_url_spec(base_url@, path_text(path), identifier@)->0,
{
    let joined = match url_join(base_url, path.as_str()) {
        Some(j) => j,
        None => {
            return None;
        },
    };
    url_join(joined.as_str(), identifier)
}

/// The text of a search path.
pub open spec fn path_text(path: SearchPath) -> Seq<char> {
    match path {
        SearchPath::Transaction => "txs/"@,
        SearchPath::Address => "address/"@,
    }
}

} // verus!
