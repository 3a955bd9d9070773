//! Unsigned LEB128 variable-length integers, as used in the binary payload
//! of delegated addresses and in the binary form of content identifiers.

use vstd::prelude::*;

verus! {

use vstd::slice::slice_subrange;

/// LEB128 encoding of an unsigned integer: seven value bits per byte, least
/// significant group first, high bit set on every byte but the last.
pub open spec fn uvarint_spec(n: nat) -> Seq<u8>
    decreases n,
{
    if n < 0x80 {
        seq![n as u8]
    } else {
        seq![(n % 0x80 + 0x80) as u8] + uvarint_spec(n / 0x80)
    }
}

/// An encoded varint holds at least one byte.
pub proof fn lemma_uvarint_len(n: nat)
    ensures
        1 <= uvarint_spec(n).len(),
    decreases n,
{
    if n >= 0x80 {
        lemma_uvarint_len(n / 0x80);
    }
}

/// The value of the varint group at the front of a byte string: seven
/// bits per byte, stopping at the first byte without the continuation
/// bit.
pub open spec fn uvarint_prefix_value(b: Seq<u8>) -> nat
    decreases b.len(),
{
    if b.len() == 0 {
        0
    } else if b[0] < 0x80 {
        b[0] as nat
    } else {
        (b[0] - 0x80) as nat + 128 * uvarint_prefix_value(b.skip(1))
    }
}

/// The length in bytes of the varint group at the front of a byte string.
pub open spec fn uvarint_prefix_len(b: Seq<u8>) -> int
    decreases b.len(),
{
    if b.len() == 0 {
        0
    } else if b[0] < 0x80 {
        1
    } else {
        1 + uvarint_prefix_len(b.skip(1))
    }
}

/// Reading the front of an encoded value followed by anything yields that
/// value and consumes exactly its encoding.
pub proof fn lemma_uvarint_prefix(n: nat, rest: Seq<u8>)
    ensures
        uvarint_prefix_value(uvarint_spec(n) + rest) == n,
        uvarint_prefix_len(uvarint_spec(n) + rest) == uvarint_spec(n).len(),
    decreases n,
{
    let b = uvarint_spec(n) + rest;
    if n < 0x80 {
        assert(uvarint_spec(n) == seq![n as u8]);
        assert(b[0] == n as u8);
    } else {
        assert(uvarint_spec(n) == seq![(n % 0x80 + 0x80) as u8] + uvarint_spec(n / 0x80));
        assert(b[0] == (n % 0x80 + 0x80) as u8);
        assert(b[0] >= 0x80);
        lemma_uvarint_prefix(n / 0x80, rest);
        assert(b.skip(1) =~= uvarint_spec(n / 0x80) + rest);
    }
}

/// The byte string begins with the encoding of `id`, followed by `rest`.
pub open spec fn begins_with_uvarint(b: Seq<u8>, id: u64, rest: Seq<u8>) -> bool {
    b == uvarint_spec(id as nat) + rest
}

/// Read the varint at the front of a byte string known to begin with the
/// encoding of a 64-bit value.
pub fn uvarint_decode(b: &[u8]) -> (r: (u64, usize))
    requires
        exists|id: u64, rest: Seq<u8>| #[trigger] begins_with_uvarint(b@, id, rest),
    ensures
        r.0 as nat == uvarint_prefix_value(b@),
        r.1 == uvarint_prefix_len(b@),
        1 <= r.1 <= b@.len(),
    decreases b@.len(),
{
    proof {
        let (id, rest) = choose|id: u64, rest: Seq<u8>| begins_with_uvarint(b@, id, rest);
        lemma_uvarint_len(id as nat);
        lemma_uvarint_prefix(id as nat, rest);
    }
    let b0 = b[0];
    if b0 < 0x80 {
        (b0 as u64, 1)
    } else {
        let tail = slice_subrange(b, 1, b.len());
        proof {
            let (id, rest) = choose|id: u64, rest: Seq<u8>| begins_with_uvarint(b@, id, rest);
            // the front byte carries the continuation bit, so the value is
            // at least 0x80 and its tail is the next value's encoding
            assert(id >= 0x80) by {
                if (id as nat) < 0x80 {
                    assert(uvarint_spec(id as nat) == seq![id as u8]);
                    assert(b@[0] == id as u8);
                }
            }
            assert(uvarint_spec(id as nat) == seq![(id as nat % 0x80 + 0x80) as u8]
                + uvarint_spec((id as nat) / 0x80));
            assert(tail@ =~= uvarint_spec(((id / 0x80) as u64) as nat) + rest);
            assert(begins_with_uvarint(tail@, (id / 0x80) as u64, rest));
        }
        let (v, l) = uvarint_decode(tail);
        proof {
            // no overflow: the whole value fits 64 bits, so its high part
            // scaled by 128 does too
            let (id, rest) = choose|id: u64, rest: Seq<u8>| begins_with_uvarint(b@, id, rest);
            lemma_uvarint_prefix(id as nat, rest);
            assert(tail@ == b@.skip(1));
            assert(uvarint_prefix_value(b@) == (b@[0] - 0x80) as nat + 128 * uvarint_prefix_value(
                b@.skip(1),
            ));
            assert((b0 - 0x80) as nat + 128 * (v as nat) == id as nat);
        }
        ((b0 - 0x80) as u64 + 128 * v, l + 1)
    }
}

/// Encode an unsigned integer as LEB128 bytes.
pub fn uvarint(n0: u64) -> (r: Vec<u8>)
    ensures
        r@ == uvarint_spec(n0 as nat),
{
    let mut n = n0;
    let mut r: Vec<u8> = Vec::new();
    while n >= 0x80
        invariant
            uvarint_spec(n0 as nat) == r@ + uvarint_spec(n as nat),
        decreases n,
    {
        r.push((n % 0x80 + 0x80) as u8);
        proof {
            assert(uvarint_spec(n as nat) == seq![(n % 0x80 + 0x80) as u8] + uvarint_spec(
                (n / 0x80) as nat,
            ));
            assert(r@.push((n % 0x80 + 0x80) as u8) + uvarint_spec((n / 0x80) as nat) =~= r@
                + uvarint_spec(n as nat));
        }
        n = n / 0x80;
    }
    r.push(n as u8);
    proof {
        assert(uvarint_spec(n as nat) =~= seq![n as u8]);
        assert(r@ =~= uvarint_spec(n0 as nat));
    }
    r
}

} // verus!
