//! Dual-representation interchange layer. Every domain type declares a
//! distinct interchange shape — the one the reference implementation
//! renders as JSON — separate from its canonical binary shape, with a
//! total rendering and a fallible reading, interchange input being
//! untrusted.
//!
//! Rendering an address takes the network explicitly; reading one tries
//! the test-network grammar first, then the main-network grammar, so the
//! interchange form round-trips independent of any ambient network.

use vstd::prelude::*;

verus! {

use crate::address::Address;
use crate::address::parse_address_any;
use crate::address::parse_any_spec;
use crate::address::format_address;
use crate::address::native_format_bytes;
use crate::ascii::all_ascii;
use crate::ascii::ascii_chars_of;
use crate::ascii::string_from_ascii;
use crate::b64::base64_decode;
use crate::b64::base64_decode_of;
use crate::b64::base64_encode;
use crate::b64::base64_of;
use crate::bigint::BigInt;
use crate::bigint::MAX_AMOUNT_DIGITS;
use crate::bigint::TokenAmount;
use crate::bigint::canonical_digits;
use crate::bigint::dec_text_digits;
use crate::bigint::dec_text_negative;
use crate::bigint::dec_text_ok;
use crate::bigint::parse_decimal;
use crate::bigint::strip_zeros;
use crate::cid::BLAKE2B_256;
use crate::cid::Cid;
use crate::cid::DAG_CBOR;
use crate::cid::cid_from_text;
use crate::cid::cid_parse_of;
use crate::cid::cid_text_of;
use crate::cid::cid_to_text;
use crate::errors::Error;
use crate::errors::Network;
use crate::hash::blake2b_of;
use crate::key::Signature;
use crate::key::SignatureType;
use crate::key::scheme_of_code;
use crate::message::Message;
use crate::message::SignedMessage;
use crate::message::message_cbor_spec;
use crate::message::signed_cbor_spec;
use vstd::string::StringSliceAdditionalSpecFns;
use vstd::utf8::encode_utf8;

/// The interchange shape of an address: its textual form.
#[derive(Clone, Debug, PartialEq, Eq)]
pub struct AddressLotusJson(pub String);

/// The interchange shape of a big integer: its decimal text.
#[derive(Clone, Debug, PartialEq, Eq)]
pub struct BigIntLotusJson(pub String);

/// The interchange shape of a token amount: the attos as decimal text.
#[derive(Clone, Debug, PartialEq, Eq)]
pub struct TokenAmountLotusJson(pub String);

/// The interchange shape of a content identifier: its self-describing
/// text, rendered under the field name `/`.
#[derive(Clone, Debug, PartialEq, Eq)]
pub struct CidLotusJson {
    /// The identifier's text form.
    pub slash: String,
}

/// The interchange shape of a byte string: base64 text, or absent for an
/// empty byte string — never an empty text.
#[derive(Clone, Debug, PartialEq, Eq)]
pub struct VecU8LotusJson(pub Option<String>);

/// The interchange shape of a signature scheme: its integer tag, never a
/// string.
#[derive(Clone, Copy, Debug, PartialEq, Eq, Structural)]
pub struct SignatureTypeLotusJson(pub u64);

/// The interchange shape of a signature: the scheme tag and the signature
/// bytes.
#[derive(Clone, Debug, PartialEq, Eq)]
pub struct SignatureLotusJson {
    /// The scheme's integer tag.
    pub sig_type: SignatureTypeLotusJson,
    /// The signature bytes.
    pub data: VecU8LotusJson,
}

/// The interchange shape of a message: capitalized field names in the
/// rendered JSON, the sequence under the name `nonce`, and the parameter
/// bytes omitted entirely when empty.
#[derive(Clone, Debug, PartialEq, Eq)]
pub struct MessageLotusJson {
    pub version: u64,
    pub to: AddressLotusJson,
    pub from: AddressLotusJson,
    pub nonce: u64,
    pub value: TokenAmountLotusJson,
    pub gas_limit: u64,
    pub gas_fee_cap: TokenAmountLotusJson,
    pub gas_premium: TokenAmountLotusJson,
    pub method: u64,
    pub params: VecU8LotusJson,
}

/// The interchange shape of a signed message. The identifier field is
/// informational output: present when rendering, computed by the
/// scheme-aware rule, and discarded — never trusted — when reading.
#[derive(Clone, Debug, PartialEq, Eq)]
pub struct SignedMessageLotusJson {
    pub message: MessageLotusJson,
    pub signature: SignatureLotusJson,
    pub cid: Option<CidLotusJson>,
}

/// A transparent wrapper marking that the value inside travels in its
/// interchange representation. It owns nothing beyond the value.
#[derive(Clone, Debug, PartialEq, Eq)]
pub struct LotusJson<T>(pub T);

impl<T> LotusJson<T> {
    /// The wrapped value.
    pub fn into_inner(self) -> (r: T)
        ensures
            r == self.0,
    {
        self.0
    }
}

/// The result of a message-status lookup: the height it landed at and the
/// message's content identifier.
#[derive(Clone, Debug, PartialEq, Eq)]
pub struct MessageLookup {
    pub height: i64,
    pub message: Cid,
}

/// A domain type with a declared interchange shape: rendering is total on
/// valid values, reading is fallible because interchange input is
/// untrusted.
pub trait HasLotusJson: Sized {
    /// The interchange shape.
    type LotusJson;

    /// The validity rendering relies on.
    spec fn json_wf(&self) -> bool;

    /// Render into the interchange shape.
    fn into_lotus_json(self) -> Self::LotusJson
        requires
            self.json_wf(),
    ;

    /// Read back from the interchange shape.
    fn from_lotus_json(j: Self::LotusJson) -> Result<Self, Error>;
}

// ---------------------------------------------------------------------
// Address
// ---------------------------------------------------------------------
/// What reading an address's interchange form yields: the protocol and
/// payload its text denotes under either network, test first.
pub open spec fn address_from_json_spec(j: AddressLotusJson) -> Option<(u8, Seq<u8>)> {
    parse_any_spec(encode_utf8(j.0@))
}

impl Address {
    /// The interchange form of this address under the given network. Its
    /// own reading maps the form back to this address: the round trip is
    /// lossless.
    pub fn to_lotus_json(&self, n: Network) -> (r: AddressLotusJson)
        requires
            self.wf(),
        ensures
            r.0@ == ascii_chars_of(
                native_format_bytes(n == Network::Mainnet, self.protocol, self.payload@),
            ),
            address_from_json_spec(r) == Some((self.protocol, self.payload@)),
    {
        AddressLotusJson(format_address(self, n))
    }

    /// Read an address from its interchange form. Fails exactly when the
    /// text parses under neither network.
    pub fn from_lotus_json(j: &AddressLotusJson) -> (r: Result<Address, Error>)
        ensures
            r is Ok <==> address_from_json_spec(*j) is Some,
            r is Ok ==> r->Ok_0.protocol == (address_from_json_spec(*j)->0).0
                && r->Ok_0.payload@ == (address_from_json_spec(*j)->0).1 && r->Ok_0.wf(),
            r is Err ==> (r->Err_0 matches Error::DecodeError(p) && p@ == "address"@),
    {
        match parse_address_any(j.0.as_str()) {
            Some(a) => Ok(a),
            None => Err(Error::DecodeError("address".to_owned())),
        }
    }
}

// ---------------------------------------------------------------------
// BigInt and TokenAmount
// ---------------------------------------------------------------------
/// The decimal text bytes of a big integer: a `-` sign when negative,
/// then the digits.
pub open spec fn bigint_text_bytes(b: BigInt) -> Seq<u8> {
    if b.negative {
        seq![0x2du8] + b.digits@
    } else {
        b.digits@
    }
}

/// What reading a big integer's interchange form yields: the sign and
/// canonical digits its decimal text denotes.
pub open spec fn bigint_from_json_spec(j: BigIntLotusJson) -> Option<(bool, Seq<u8>)> {
    if dec_text_ok(encode_utf8(j.0@)) {
        Some((dec_text_negative(encode_utf8(j.0@)), dec_text_digits(encode_utf8(j.0@))))
    } else {
        None
    }
}

/// A canonical digit string is already stripped.
proof fn lemma_strip_zeros_canonical(s: Seq<u8>)
    requires
        canonical_digits(s),
    ensures
        strip_zeros(s) == s,
{
}

/// Build the decimal text bytes of a well-formed big integer.
fn bigint_text(b: &BigInt) -> (r: Vec<u8>)
    requires
        b.wf(),
    ensures
        r@ == bigint_text_bytes(*b),
        all_ascii(r@),
{
    let mut out: Vec<u8> = Vec::new();
    if b.negative {
        out.push(0x2d);
    }
    let mut d = b.digits.clone();
    out.append(&mut d);
    proof {
        assert(out@ =~= bigint_text_bytes(*b));
    }
    out
}

/// The text of a well-formed big integer reads back to it.
pub proof fn lemma_big_int_round_trip(b: BigInt)
    requires
        b.wf(),
    ensures
        dec_text_ok(bigint_text_bytes(b)),
        dec_text_digits(bigint_text_bytes(b)) == b.digits@,
        dec_text_negative(bigint_text_bytes(b)) == b.negative,
{
    let t = bigint_text_bytes(b);
    lemma_strip_zeros_canonical(b.digits@);
    if b.negative {
        assert(t[0] == 0x2d);
        assert(t.skip(1) =~= b.digits@);
    } else {
        assert(t == b.digits@);
        assert(crate::bigint::is_dec_digit(t[0]));
    }
}

impl BigInt {
    /// The interchange form: the decimal text. Its own reading maps the
    /// text back to this value: the round trip is lossless.
    pub fn to_lotus_json(&self) -> (r: BigIntLotusJson)
        requires
            self.wf(),
        ensures
            r.0@ == ascii_chars_of(bigint_text_bytes(*self)),
            bigint_from_json_spec(r) == Some((self.negative, self.digits@)),
    {
        let bytes = bigint_text(self);
        let ghost bv = bytes@;
        let s = string_from_ascii(bytes);
        proof {
            crate::ascii::lemma_ascii_chars_encode(bv);
            lemma_big_int_round_trip(*self);
        }
        BigIntLotusJson(s)
    }

    /// Read a big integer from its interchange form. Fails exactly when
    /// the text is not an optional sign followed by decimal digits —
    /// malformed text is rejected, never truncated.
    pub fn from_lotus_json(j: &BigIntLotusJson) -> (r: Result<BigInt, Error>)
        ensures
            r is Ok <==> bigint_from_json_spec(*j) is Some,
            r is Ok ==> r->Ok_0.negative == (bigint_from_json_spec(*j)->0).0
                && r->Ok_0.digits@ == (bigint_from_json_spec(*j)->0).1 && r->Ok_0.wf(),
            r is Err ==> (r->Err_0 matches Error::DecodeError(p) && p@ == "big integer"@),
    {
        match parse_decimal(j.0.as_str().as_bytes()) {
            Some(b) => Ok(b),
            None => Err(Error::DecodeError("big integer".to_owned())),
        }
    }
}

/// What reading a token amount's interchange form yields: the sign and
/// digits of decimal text that fits the wire encoding's size cap.
pub open spec fn amount_from_json_spec(j: TokenAmountLotusJson) -> Option<(bool, Seq<u8>)> {
    if dec_text_ok(encode_utf8(j.0@)) && dec_text_digits(encode_utf8(j.0@)).len()
        <= MAX_AMOUNT_DIGITS {
        Some((dec_text_negative(encode_utf8(j.0@)), dec_text_digits(encode_utf8(j.0@))))
    } else {
        None
    }
}

impl TokenAmount {
    /// The interchange form: the attos as decimal text. Reading it back
    /// yields this amount: the round trip is lossless.
    pub fn to_lotus_json(&self) -> (r: TokenAmountLotusJson)
        requires
            self.wf(),
        ensures
            r.0@ == ascii_chars_of(bigint_text_bytes(self.attos)),
            amount_from_json_spec(r) == Some((self.attos.negative, self.attos.digits@)),
    {
        let bytes = bigint_text(&self.attos);
        let ghost bv = bytes@;
        let s = string_from_ascii(bytes);
        proof {
            crate::ascii::lemma_ascii_chars_encode(bv);
            lemma_big_int_round_trip(self.attos);
        }
        TokenAmountLotusJson(s)
    }

    /// Read a token amount from its interchange form. Fails exactly when
    /// the text is not decimal, or the amount is wider than
    /// [`MAX_AMOUNT_DIGITS`] digits and so cannot be carried by the
    /// canonical wire encoding — such text is rejected here instead of
    /// being accepted and then failing when encoded.
    pub fn from_lotus_json(j: &TokenAmountLotusJson) -> (r: Result<TokenAmount, Error>)
        ensures
            r is Ok <==> amount_from_json_spec(*j) is Some,
            r is Ok ==> r->Ok_0.attos.negative == (amount_from_json_spec(*j)->0).0
                && r->Ok_0.attos.digits@ == (amount_from_json_spec(*j)->0).1 && r->Ok_0.wf(),
            r is Err ==> (r->Err_0 matches Error::DecodeError(p) && p@ == "token amount"@),
    {
        match parse_decimal(j.0.as_str().as_bytes()) {
            Some(b) => {
                if b.digits.len() <= MAX_AMOUNT_DIGITS {
                    Ok(TokenAmount { attos: b })
                } else {
                    Err(Error::DecodeError("token amount".to_owned()))
                }
            },
            None => Err(Error::DecodeError("token amount".to_owned())),
        }
    }
}

// ---------------------------------------------------------------------
// Cid
// ---------------------------------------------------------------------
/// What reading an identifier's interchange form yields: the fields its
/// text denotes.
pub open spec fn cid_from_json_spec(j: CidLotusJson) -> Option<(u8, u64, u64, Seq<u8>)> {
    cid_parse_of(j.slash@)
}

impl Cid {
    /// The interchange form: the self-describing text under the `/` key.
    /// Reading it back yields this identifier: the round trip is
    /// lossless.
    pub fn to_lotus_json(&self) -> (r: CidLotusJson)
        requires
            self.wf(),
        ensures
            r.slash@ == cid_text_of(self.version, self.codec, self.hash_code, self.digest@),
            cid_from_json_spec(r) == Some(
                (self.version, self.codec, self.hash_code, self.digest@),
            ),
    {
        CidLotusJson { slash: cid_to_text(self.version, self.codec, self.hash_code, &self.digest) }
    }

    /// Read an identifier from its interchange form. Fails exactly when
    /// the text is not a valid identifier.
    pub fn from_lotus_json(j: &CidLotusJson) -> (r: Result<Cid, Error>)
        ensures
            r is Ok <==> cid_from_json_spec(*j) is Some,
            r is Ok ==> r->Ok_0.version == (cid_from_json_spec(*j)->0).0 && r->Ok_0.codec == (
            cid_from_json_spec(*j)->0).1 && r->Ok_0.hash_code == (cid_from_json_spec(*j)->0).2
                && r->Ok_0.digest@ == (cid_from_json_spec(*j)->0).3 && r->Ok_0.wf(),
            r is Err ==> (r->Err_0 matches Error::DecodeError(p) && p@ == "CID"@),
    {
        match cid_from_text(j.slash.as_str()) {
            Some(c) => Ok(c),
            None => Err(Error::DecodeError("CID".to_owned())),
        }
    }
}

// ---------------------------------------------------------------------
// Byte strings
// ---------------------------------------------------------------------
/// What reading a byte string's interchange form yields: empty bytes for
/// an absent value, else the bytes its base64 text denotes.
pub open spec fn vec_u8_from_json_spec(j: VecU8LotusJson) -> Option<Seq<u8>> {
    match j.0 {
        None => Some(Seq::<u8>::empty()),
        Some(s) => base64_decode_of(s@),
    }
}

/// What rendering a byte string yields: absent for empty bytes, else the
/// base64 text.
pub open spec fn vec_u8_to_json_spec(b: Seq<u8>) -> Option<Seq<char>> {
    if b.len() == 0 {
        None
    } else {
        Some(base64_of(b))
    }
}

/// Empty byte strings render as an absent interchange value, and an
/// absent interchange value reads back as the empty byte string — so
/// rendering what an absent value decodes to is absent again.
pub proof fn lemma_empty_bytes_absent()
    ensures
        vec_u8_to_json_spec(Seq::<u8>::empty()) is None,
        vec_u8_from_json_spec(VecU8LotusJson(None)) == Some(Seq::<u8>::empty()),
{
}

/// The interchange form of a byte string: absent when empty — an empty
/// byte string never renders as an empty text — else its base64 text.
/// Reading the form back yields the same bytes: the round trip is
/// lossless.
pub fn vec_u8_to_lotus_json(b: &[u8]) -> (r: VecU8LotusJson)
    ensures
        r.0 is Some <==> vec_u8_to_json_spec(b@) is Some,
        b@.len() > 0 ==> r.0->0@ == base64_of(b@) && r.0->0@ == vec_u8_to_json_spec(b@)->0,
        vec_u8_from_json_spec(r) == Some(b@),
{
    if b.len() == 0 {
        proof {
            assert(b@ =~= Seq::<u8>::empty());
        }
        VecU8LotusJson(None)
    } else {
        VecU8LotusJson(Some(base64_encode(b)))
    }
}

/// Read a byte string from its interchange form: an absent value yields
/// the empty byte string; present text must be valid base64.
pub fn vec_u8_from_lotus_json(j: &VecU8LotusJson) -> (r: Result<Vec<u8>, Error>)
    ensures
        r is Ok <==> vec_u8_from_json_spec(*j) is Some,
        r is Ok ==> r->Ok_0@ == vec_u8_from_json_spec(*j)->0,
        r is Err ==> (r->Err_0 matches Error::DecodeError(p) && p@ == "bytes"@),
{
    match &j.0 {
        None => Ok(Vec::new()),
        Some(s) => match base64_decode(s.as_str()) {
            Some(b) => Ok(b),
            None => Err(Error::DecodeError("bytes".to_owned())),
        },
    }
}

// ---------------------------------------------------------------------
// Signature scheme and signature
// ---------------------------------------------------------------------
impl SignatureType {
    /// The interchange form: the integer tag, never a string. The
    /// ecosystem also knows a string form for key types; that asymmetry
    /// is deliberate and preserved.
    pub fn to_lotus_json(&self) -> (r: SignatureTypeLotusJson)
        ensures
            r.0 == self.code_spec(),
            scheme_of_code(r.0) == Some(*self),
    {
        SignatureTypeLotusJson(self.code())
    }

    /// Read a scheme from its interchange form. An unrecognized tag
    /// fails.
    pub fn from_lotus_json(j: &SignatureTypeLotusJson) -> (r: Result<SignatureType, Error>)
        ensures
            r is Ok <==> scheme_of_code(j.0) is Some,
            r is Ok ==> r->Ok_0 == scheme_of_code(j.0)->0,
            r is Err ==> r->Err_0 == Error::UnsupportedScheme,
    {
        match SignatureType::from_code(j.0) {
            Some(t) => Ok(t),
            None => Err(Error::UnsupportedScheme),
        }
    }
}

/// What reading a signature's interchange form yields: the scheme of a
/// recognized tag and the bytes of the data field.
pub open spec fn signature_from_json_spec(j: SignatureLotusJson) -> Option<(
    SignatureType,
    Seq<u8>,
)> {
    match scheme_of_code(j.sig_type.0) {
        None => None,
        Some(t) => match vec_u8_from_json_spec(j.data) {
            None => None,
            Some(b) => Some((t, b)),
        },
    }
}

impl Signature {
    /// The interchange form: the scheme's integer tag and the bytes as
    /// base64 (absent when empty). Reading the form back yields this
    /// signature: the round trip is lossless.
    pub fn to_lotus_json(&self) -> (r: SignatureLotusJson)
        ensures
            r.sig_type.0 == self.sig_type.code_spec(),
            signature_from_json_spec(r) == Some((self.sig_type, self.bytes@)),
    {
        SignatureLotusJson {
            sig_type: self.sig_type.to_lotus_json(),
            data: vec_u8_to_lotus_json(self.bytes.as_slice()),
        }
    }

    /// Read a signature from its interchange form. An unrecognized
    /// scheme tag or malformed base64 fails.
    pub fn from_lotus_json(j: &SignatureLotusJson) -> (r: Result<Signature, Error>)
        ensures
            r is Ok <==> signature_from_json_spec(*j) is Some,
            r is Ok ==> r->Ok_0.sig_type == (signature_from_json_spec(*j)->0).0
                && r->Ok_0.bytes@ == (signature_from_json_spec(*j)->0).1,
            r is Err ==> r->Err_0 == Error::UnsupportedScheme || (r->Err_0
                matches Error::DecodeError(p) && p@ == "bytes"@),
    {
        let sig_type = match SignatureType::from_lotus_json(&j.sig_type) {
            Ok(t) => t,
            Err(e) => {
                return Err(e);
            },
        };
        let bytes = match vec_u8_from_lotus_json(&j.data) {
            Ok(b) => b,
            Err(e) => {
                return Err(e);
            },
        };
        Ok(Signature { sig_type, bytes })
    }
}

// ---------------------------------------------------------------------
// Message and signed message
// ---------------------------------------------------------------------
/// The mathematical content of a message, with addresses as protocol and
/// payload, and amounts as sign and digits.
pub struct MessageV {
    pub version: u64,
    pub to: (u8, Seq<u8>),
    pub from: (u8, Seq<u8>),
    pub sequence: u64,
    pub value: (bool, Seq<u8>),
    pub gas_limit: u64,
    pub gas_fee_cap: (bool, Seq<u8>),
    pub gas_premium: (bool, Seq<u8>),
    pub method_num: u64,
    pub params: Seq<u8>,
}

impl Message {
    /// The mathematical content of the message.
    pub open spec fn view_spec(&self) -> MessageV {
        MessageV {
            version: self.version,
            to: (self.to.protocol, self.to.payload@),
            from: (self.from.protocol, self.from.payload@),
            sequence: self.sequence,
            value: (self.value.attos.negative, self.value.attos.digits@),
            gas_limit: self.gas_limit,
            gas_fee_cap: (self.gas_fee_cap.attos.negative, self.gas_fee_cap.attos.digits@),
            gas_premium: (self.gas_premium.attos.negative, self.gas_premium.attos.digits@),
            method_num: self.method_num,
            params: self.params@,
        }
    }
}

/// What reading a message's interchange form yields, field by field; the
/// first malformed field decides the failure.
pub open spec fn message_from_json_spec(j: MessageLotusJson) -> Option<MessageV> {
    match address_from_json_spec(j.to) {
        None => None,
        Some(to) => match address_from_json_spec(j.from) {
            None => None,
            Some(from) => match amount_from_json_spec(j.value) {
                None => None,
                Some(value) => match amount_from_json_spec(j.gas_fee_cap) {
                    None => None,
                    Some(fee) => match amount_from_json_spec(j.gas_premium) {
                        None => None,
                        Some(premium) => match vec_u8_from_json_spec(j.params) {
                            None => None,
                            Some(params) => Some(
                                MessageV {
                                    version: j.version,
                                    to,
                                    from,
                                    sequence: j.nonce,
                                    value,
                                    gas_limit: j.gas_limit,
                                    gas_fee_cap: fee,
                                    gas_premium: premium,
                                    method_num: j.method,
                                    params,
                                },
                            ),
                        },
                    },
                },
            },
        },
    }
}

impl Message {
    /// The interchange form of the message under the given network: the
    /// sequence renders as `nonce`, amounts as decimal text, addresses in
    /// their textual form, and the parameters are absent when empty.
    /// Reading the form back yields this message: the round trip is
    /// lossless.
    pub fn to_lotus_json(&self, n: Network) -> (r: MessageLotusJson)
        requires
            self.wf(),
        ensures
            r.version == self.version && r.nonce == self.sequence && r.gas_limit
                == self.gas_limit && r.method == self.method_num,
            r.to.0@ == ascii_chars_of(
                native_format_bytes(n == Network::Mainnet, self.to.protocol, self.to.payload@),
            ),
            r.from.0@ == ascii_chars_of(
                native_format_bytes(n == Network::Mainnet, self.from.protocol,
                    self.from.payload@),
            ),
            r.value.0@ == ascii_chars_of(bigint_text_bytes(self.value.attos)),
            r.gas_fee_cap.0@ == ascii_chars_of(bigint_text_bytes(self.gas_fee_cap.attos)),
            r.gas_premium.0@ == ascii_chars_of(bigint_text_bytes(self.gas_premium.attos)),
            r.params.0 is Some <==> self.params@.len() > 0,
            message_from_json_spec(r) == Some(self.view_spec()),
    {
        MessageLotusJson {
            version: self.version,
            to: self.to.to_lotus_json(n),
            from: self.from.to_lotus_json(n),
            nonce: self.sequence,
            value: self.value.to_lotus_json(),
            gas_limit: self.gas_limit,
            gas_fee_cap: self.gas_fee_cap.to_lotus_json(),
            gas_premium: self.gas_premium.to_lotus_json(),
            method: self.method_num,
            params: vec_u8_to_lotus_json(self.params.as_slice()),
        }
    }

    /// Read a message from its interchange form. A malformed field fails
    /// with a decode error naming the field; nothing is partially
    /// constructed.
    pub fn from_lotus_json(j: &MessageLotusJson) -> (r: Result<Message, Error>)
        ensures
            r is Ok <==> message_from_json_spec(*j) is Some,
            r is Ok ==> r->Ok_0.view_spec() == message_from_json_spec(*j)->0 && r->Ok_0.wf(),
            r is Err ==> r->Err_0 matches Error::DecodeError(_),
            address_from_json_spec(j.to) is None ==> (r->Err_0 matches Error::DecodeError(p)
                && p@ == "To"@),
            address_from_json_spec(j.to) is Some && address_from_json_spec(j.from) is None
                ==> (r->Err_0 matches Error::DecodeError(p) && p@ == "From"@),
            address_from_json_spec(j.to) is Some && address_from_json_spec(j.from) is Some
                && amount_from_json_spec(j.value) is None ==> (r->Err_0
                matches Error::DecodeError(p) && p@ == "Value"@),
            address_from_json_spec(j.to) is Some && address_from_json_spec(j.from) is Some
                && amount_from_json_spec(j.value) is Some && amount_from_json_spec(
                j.gas_fee_cap,
            ) is None ==> (r->Err_0 matches Error::DecodeError(p) && p@ == "GasFeeCap"@),
            address_from_json_spec(j.to) is Some && address_from_json_spec(j.from) is Some
                && amount_from_json_spec(j.value) is Some && amount_from_json_spec(
                j.gas_fee_cap,
            ) is Some && amount_from_json_spec(j.gas_premium) is None ==> (r->Err_0
                matches Error::DecodeError(p) && p@ == "GasPremium"@),
            address_from_json_spec(j.to) is Some && address_from_json_spec(j.from) is Some
                && amount_from_json_spec(j.value) is Some && amount_from_json_spec(
                j.gas_fee_cap,
            ) is Some && amount_from_json_spec(j.gas_premium) is Some && vec_u8_from_json_spec(
                j.params,
            ) is None ==> (r->Err_0 matches Error::DecodeError(p) && p@ == "Params"@),
    {
        let to = match Address::from_lotus_json(&j.to) {
            Ok(a) => a,
            Err(_) => {
                return Err(Error::DecodeError("To".to_owned()));
            },
        };
        let from = match Address::from_lotus_json(&j.from) {
            Ok(a) => a,
            Err(_) => {
                return Err(Error::DecodeError("From".to_owned()));
            },
        };
        let value = match TokenAmount::from_lotus_json(&j.value) {
            Ok(v) => v,
            Err(_) => {
                return Err(Error::DecodeError("Value".to_owned()));
            },
        };
        let gas_fee_cap = match TokenAmount::from_lotus_json(&j.gas_fee_cap) {
            Ok(v) => v,
            Err(_) => {
                return Err(Error::DecodeError("GasFeeCap".to_owned()));
            },
        };
        let gas_premium = match TokenAmount::from_lotus_json(&j.gas_premium) {
            Ok(v) => v,
            Err(_) => {
                return Err(Error::DecodeError("GasPremium".to_owned()));
            },
        };
        let params = match vec_u8_from_lotus_json(&j.params) {
            Ok(p) => p,
            Err(_) => {
                return Err(Error::DecodeError("Params".to_owned()));
            },
        };
        Ok(
            Message {
                version: j.version,
                from,
                to,
                sequence: j.nonce,
                value,
                method_num: j.method,
                params,
                gas_limit: j.gas_limit,
                gas_fee_cap,
                gas_premium,
            },
        )
    }
}

/// The mathematical content of a signed message.
pub struct SignedMessageV {
    pub message: MessageV,
    pub sig_type: SignatureType,
    pub sig_bytes: Seq<u8>,
}

impl SignedMessage {
    /// The mathematical content of the signed message.
    pub open spec fn view_spec(&self) -> SignedMessageV {
        SignedMessageV {
            message: self.message.view_spec(),
            sig_type: self.signature.sig_type,
            sig_bytes: self.signature.bytes@,
        }
    }
}

/// What reading a signed message's interchange form yields: the message
/// and signature; the identifier field is discarded, never trusted.
pub open spec fn signed_from_json_spec(j: SignedMessageLotusJson) -> Option<SignedMessageV> {
    match message_from_json_spec(j.message) {
        None => None,
        Some(m) => match signature_from_json_spec(j.signature) {
            None => None,
            Some(s) => Some(SignedMessageV { message: m, sig_type: s.0, sig_bytes: s.1 }),
        },
    }
}

impl SignedMessage {
    /// The interchange form of the signed envelope under the given
    /// network, with its informational identifier computed by the
    /// scheme-aware rule. Reading the form back yields this signed
    /// message: the round trip is lossless.
    pub fn to_lotus_json(&self, n: Network) -> (r: SignedMessageLotusJson)
        requires
            self.message.wf(),
        ensures
            message_from_json_spec(r.message) == Some(self.message.view_spec()),
            signature_from_json_spec(r.signature) == Some(
                (self.signature.sig_type, self.signature.bytes@),
            ),
            r.cid is Some,
            self.signature.sig_type == SignatureType::BLS ==> r.cid->0.slash@ == cid_text_of(
                1,
                DAG_CBOR,
                BLAKE2B_256,
                blake2b_of(32, message_cbor_spec(self.message)),
            ),
            self.signature.sig_type != SignatureType::BLS ==> r.cid->0.slash@ == cid_text_of(
                1,
                DAG_CBOR,
                BLAKE2B_256,
                blake2b_of(32, signed_cbor_spec(*self)),
            ),
            signed_from_json_spec(r) == Some(self.view_spec()),
    {
        let cid = self.cid();
        SignedMessageLotusJson {
            message: self.message.to_lotus_json(n),
            signature: self.signature.to_lotus_json(),
            cid: Some(cid.to_lotus_json()),
        }
    }

    /// Read a signed message from its interchange form, discarding the
    /// untrusted identifier field.
    pub fn from_lotus_json(j: &SignedMessageLotusJson) -> (r: Result<SignedMessage, Error>)
        ensures
            r is Ok <==> signed_from_json_spec(*j) is Some,
            r is Ok ==> r->Ok_0.view_spec() == signed_from_json_spec(*j)->0
                && r->Ok_0.message.wf(),
            r is Err ==> r->Err_0 matches Error::DecodeError(_) || r->Err_0
                == Error::UnsupportedScheme,
    {
        let message = match Message::from_lotus_json(&j.message) {
            Ok(m) => m,
            Err(e) => {
                return Err(e);
            },
        };
        let signature = match Signature::from_lotus_json(&j.signature) {
            Ok(s) => s,
            Err(e) => {
                return Err(e);
            },
        };
        Ok(SignedMessage { message, signature })
    }
}

// ---------------------------------------------------------------------
// Trait impls for the network-free types
// ---------------------------------------------------------------------
impl HasLotusJson for BigInt {
    type LotusJson = BigIntLotusJson;

    open spec fn json_wf(&self) -> bool {
        self.wf()
    }

    fn into_lotus_json(self) -> BigIntLotusJson {
        BigInt::to_lotus_json(&self)
    }

    fn from_lotus_json(j: BigIntLotusJson) -> Result<BigInt, Error> {
        BigInt::from_lotus_json(&j)
    }
}

impl HasLotusJson for TokenAmount {
    type LotusJson = TokenAmountLotusJson;

    open spec fn json_wf(&self) -> bool {
        self.wf()
    }

    fn into_lotus_json(self) -> TokenAmountLotusJson {
        TokenAmount::to_lotus_json(&self)
    }

    fn from_lotus_json(j: TokenAmountLotusJson) -> Result<TokenAmount, Error> {
        TokenAmount::from_lotus_json(&j)
    }
}

impl HasLotusJson for Cid {
    type LotusJson = CidLotusJson;

    open spec fn json_wf(&self) -> bool {
        self.wf()
    }

    fn into_lotus_json(self) -> CidLotusJson {
        Cid::to_lotus_json(&self)
    }

    fn from_lotus_json(j: CidLotusJson) -> Result<Cid, Error> {
        Cid::from_lotus_json(&j)
    }
}

impl HasLotusJson for Vec<u8> {
    type LotusJson = VecU8LotusJson;

    open spec fn json_wf(&self) -> bool {
        true
    }

    fn into_lotus_json(self) -> VecU8LotusJson {
        vec_u8_to_lotus_json(self.as_slice())
    }

    fn from_lotus_json(j: VecU8LotusJson) -> Result<Vec<u8>, Error> {
        vec_u8_from_lotus_json(&j)
    }
}

impl HasLotusJson for SignatureType {
    type LotusJson = SignatureTypeLotusJson;

    open spec fn json_wf(&self) -> bool {
        true
    }

    fn into_lotus_json(self) -> SignatureTypeLotusJson {
        SignatureType::to_lotus_json(&self)
    }

    fn from_lotus_json(j: SignatureTypeLotusJson) -> Result<SignatureType, Error> {
        SignatureType::from_lotus_json(&j)
    }
}

impl HasLotusJson for Signature {
    type LotusJson = SignatureLotusJson;

    open spec fn json_wf(&self) -> bool {
        true
    }

    fn into_lotus_json(self) -> SignatureLotusJson {
        Signature::to_lotus_json(&self)
    }

    fn from_lotus_json(j: SignatureLotusJson) -> Result<Signature, Error> {
        Signature::from_lotus_json(&j)
    }
}

impl HasLotusJson for MessageLookup {
    type LotusJson = MessageLookup;

    open spec fn json_wf(&self) -> bool {
        true
    }

    fn into_lotus_json(self) -> MessageLookup {
        self
    }

    fn from_lotus_json(j: MessageLookup) -> Result<MessageLookup, Error> {
        Ok(j)
    }
}

} // verus!
