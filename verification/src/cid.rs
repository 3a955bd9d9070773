//! Content identifiers: a version, a codec tag, a hash-function tag and a
//! digest. This library builds version-1 identifiers over the DAG-CBOR
//! codec and 256-bit BLAKE2b; the self-describing text form belongs to the
//! `cid` crate and is called through trusted wrappers.

use vstd::prelude::*;

verus! {

use crate::varint::uvarint;
use crate::varint::uvarint_spec;

/// Codec tag of canonical DAG-CBOR encodings.
pub const DAG_CBOR: u64 = 0x71;

/// Codec tag of version-0 identifiers (DAG protobuf).
pub const DAG_PB: u64 = 0x70;

/// Hash-function tag of 256-bit BLAKE2b.
pub const BLAKE2B_256: u64 = 0xb220;

/// Hash-function tag of SHA2-256, the only one version-0 identifiers use.
pub const SHA2_256: u64 = 0x12;

/// A content identifier: a hash of a canonical encoding, tagged with the
/// version, the codec of that encoding and the hash function.
#[derive(Clone, Debug, PartialEq, Eq, Hash)]
pub struct Cid {
    /// Identifier version, 0 or 1.
    pub version: u8,
    /// Codec tag of the hashed encoding.
    pub codec: u64,
    /// Hash-function tag.
    pub hash_code: u64,
    /// The digest bytes.
    pub digest: Vec<u8>,
}

impl Cid {
    /// Well-formed: a version-1 identifier with a digest a multihash can
    /// carry, or a version-0 identifier in its fixed shape.
    pub open spec fn wf(&self) -> bool {
        ||| (self.version == 1 && self.digest@.len() <= 64)
        ||| (self.version == 0 && self.codec == DAG_PB && self.hash_code == SHA2_256
            && self.digest@.len() == 32)
    }

    /// The binary form: for version 1, the version, codec and multihash
    /// (hash tag, digest length, digest), each integer as a varint; for
    /// version 0, the bare multihash.
    pub open spec fn bytes_spec(&self) -> Seq<u8> {
        let mh = uvarint_spec(self.hash_code as nat) + uvarint_spec(self.digest@.len())
            + self.digest@;
        if self.version == 0 {
            mh
        } else {
            uvarint_spec(1) + uvarint_spec(self.codec as nat) + mh
        }
    }

    /// A fresh version-1 identifier.
    pub fn new_v1(codec: u64, hash_code: u64, digest: Vec<u8>) -> (r: Cid)
        requires
            digest@.len() <= 64,
        ensures
            r.version == 1 && r.codec == codec && r.hash_code == hash_code && r.digest@
                == digest@,
            r.wf(),
    {
        Cid { version: 1, codec, hash_code, digest }
    }

    /// The binary form of the identifier.
    pub fn to_bytes(&self) -> (r: Vec<u8>)
        ensures
            r@ == self.bytes_spec(),
    {
        let mut r: Vec<u8> = Vec::new();
        if self.version != 0 {
            let mut v = uvarint(1);
            r.append(&mut v);
            let mut c = uvarint(self.codec);
            r.append(&mut c);
        }
        let mut h = uvarint(self.hash_code);
        r.append(&mut h);
        let mut l = uvarint(self.digest.len() as u64);
        r.append(&mut l);
        let mut d = self.digest.clone();
        r.append(&mut d);
        proof {
            assert(r@ =~= self.bytes_spec());
        }
        r
    }
}

/// The self-describing text form of an identifier with the given fields. A
/// function of its arguments alone, fixed by the `cid` crate's renderer.
pub uninterp spec fn cid_text_of(version: u8, codec: u64, hash_code: u64, digest: Seq<u8>) -> Seq<
    char,
>;

/// What the `cid` crate's parser makes of identifier text: the fields of
/// the identifier it denotes, if any.
pub uninterp spec fn cid_parse_of(s: Seq<char>) -> Option<(u8, u64, u64, Seq<u8>)>;

/// Relies on the `cid` crate's `Display` (and `multihash`'s `wrap`): the
/// text is a deterministic function of the identifier's fields, and the
/// crate's own parser reads it back to the same fields.
#[verifier::external_body]
pub(crate) fn cid_to_text(version: u8, codec: u64, hash_code: u64, digest: &Vec<u8>) -> (r: String)
    requires
        version == 1 && digest@.len() <= 64 || version == 0 && codec == DAG_PB && hash_code
            == SHA2_256 && digest@.len() == 32,
    ensures
        r@ == cid_text_of(version, codec, hash_code, digest@),
        cid_parse_of(r@) == Some((version, codec, hash_code, digest@)),
{
    let mh = cid::multihash::Multihash::<64>::wrap(hash_code, digest).unwrap();
    let c = if version == 0 {
        cid::Cid::new_v0(mh).unwrap()
    } else {
        cid::Cid::new_v1(codec, mh)
    };
    c.to_string()
}

/// Relies on the `cid` crate's `FromStr`: parsing is deterministic, a
/// parsed identifier is version 0 or 1 with a digest of at most 64 bytes,
/// and a version-0 identifier carries the DAG-protobuf codec and a 32-byte
/// SHA2-256 multihash.
#[verifier::external_body]
pub(crate) fn cid_from_text(s: &str) -> (r: Option<Cid>)
    ensures
        r is Some <==> cid_parse_of(s@) is Some,
        r is Some ==> {
            let f = cid_parse_of(s@)->0;
            r->0.version == f.0 && r->0.codec == f.1 && r->0.hash_code == f.2 && r->0.digest@
                == f.3 && r->0.wf()
        },
{
    let c: cid::Cid = s.parse().ok()?;
    let version: u8 = match c.version() {
        cid::Version::V0 => 0,
        cid::Version::V1 => 1,
    };
    Some(
        Cid {
            version,
            codec: c.codec(),
            hash_code: c.hash().code(),
            digest: c.hash().digest().to_vec(),
        },
    )
}

} // verus!
