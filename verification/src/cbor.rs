//! Canonical binary encoding primitives: CBOR headers with minimally-sized
//! arguments, as the wire format demands. The framing of domain objects out
//! of these primitives is this library's own verified logic.

use vstd::prelude::*;

verus! {

/// CBOR header for the given major type and argument: the argument is
/// encoded in its smallest form (immediate, one, two, four or eight
/// bytes).
pub open spec fn cbor_head_spec(major: u8, v: int) -> Seq<u8> {
    let m = major * 0x20;
    if v < 24 {
        seq![(m + v) as u8]
    } else if v <= 0xff {
        seq![(m + 24) as u8, v as u8]
    } else if v <= 0xffff {
        seq![(m + 25) as u8, (v / 0x100) as u8, (v % 0x100) as u8]
    } else if v <= 0xffff_ffff {
        seq![
            (m + 26) as u8,
            (v / 0x100_0000) as u8,
            ((v / 0x1_0000) % 0x100) as u8,
            ((v / 0x100) % 0x100) as u8,
            (v % 0x100) as u8,
        ]
    } else {
        seq![
            (m + 27) as u8,
            (v / 0x100_0000_0000_0000) as u8,
            ((v / 0x1_0000_0000_0000) % 0x100) as u8,
            ((v / 0x100_0000_0000) % 0x100) as u8,
            ((v / 0x1_0000_0000) % 0x100) as u8,
            ((v / 0x100_0000) % 0x100) as u8,
            ((v / 0x1_0000) % 0x100) as u8,
            ((v / 0x100) % 0x100) as u8,
            (v % 0x100) as u8,
        ]
    }
}

/// A byte string: its header, then its bytes.
pub open spec fn cbor_bytes_spec(b: Seq<u8>) -> Seq<u8> {
    cbor_head_spec(2, b.len() as int) + b
}

/// An unsigned integer item.
pub open spec fn cbor_uint_spec(v: u64) -> Seq<u8> {
    cbor_head_spec(0, v as int)
}

/// Append the CBOR header for the given major type and argument to `out`.
pub fn cbor_head(out: &mut Vec<u8>, major: u8, v: u64)
    requires
        major <= 7,
    ensures
        final(out)@ == old(out)@ + cbor_head_spec(major, v as int),
{
    let m = major * 0x20;
    if v < 24 {
        out.push(m + v as u8);
    } else if v <= 0xff {
        out.push(m + 24);
        out.push(v as u8);
    } else if v <= 0xffff {
        out.push(m + 25);
        out.push((v / 0x100) as u8);
        out.push((v % 0x100) as u8);
    } else if v <= 0xffff_ffff {
        out.push(m + 26);
        out.push((v / 0x100_0000) as u8);
        out.push(((v / 0x1_0000) % 0x100) as u8);
        out.push(((v / 0x100) % 0x100) as u8);
        out.push((v % 0x100) as u8);
    } else {
        out.push(m + 27);
        out.push((v / 0x100_0000_0000_0000) as u8);
        out.push(((v / 0x1_0000_0000_0000) % 0x100) as u8);
        out.push(((v / 0x100_0000_0000) % 0x100) as u8);
        out.push(((v / 0x1_0000_0000) % 0x100) as u8);
        out.push(((v / 0x100_0000) % 0x100) as u8);
        out.push(((v / 0x1_0000) % 0x100) as u8);
        out.push(((v / 0x100) % 0x100) as u8);
        out.push((v % 0x100) as u8);
    }
    proof {
        assert(out@ =~= old(out)@ + cbor_head_spec(major, v as int));
    }
}

/// Append an unsigned integer item.
pub fn cbor_uint(out: &mut Vec<u8>, v: u64)
    ensures
        final(out)@ == old(out)@ + cbor_uint_spec(v),
{
    cbor_head(out, 0, v);
}

/// Append a byte string item: header, then the bytes themselves.
pub fn cbor_bytes(out: &mut Vec<u8>, b: &[u8])
    ensures
        final(out)@ == old(out)@ + cbor_bytes_spec(b@),
{
    cbor_head(out, 2, b.len() as u64);
    let mut i: usize = 0;
    let ghost mid = out@;
    while i < b.len()
        invariant
            0 <= i <= b@.len(),
            mid == old(out)@ + cbor_head_spec(2, b@.len() as int),
            out@ == mid + b@.subrange(0, i as int),
        decreases b@.len() - i,
    {
        out.push(b[i]);
        assert(out@ == mid + b@.subrange(0, i + 1));
        i = i + 1;
    }
    proof {
        assert(out@ =~= old(out)@ + cbor_bytes_spec(b@));
    }
}

} // verus!
