//! Unpadded base32 text over the address alphabet — the lower-case
//! letters, then the digits two through seven — encoded five bits per
//! symbol, most significant bits first. This is the textual payload form
//! of the native address grammar, and is this library's own verified
//! logic.

use vstd::prelude::*;

verus! {

use crate::ascii::all_ascii;

/// The symbol for a five-bit value: `a` through `z` for 0 through 25,
/// then `2` through `7` for 26 through 31.
pub open spec fn b32_sym(v: int) -> u8 {
    if v < 26 {
        (0x61 + v) as u8
    } else {
        (0x32 + v - 26) as u8
    }
}

/// The symbols of one input group of one to five bytes: each symbol takes
/// the next five bits, the final symbol padded with zero bits. A group of
/// 1, 2, 3, 4 or 5 bytes yields 2, 4, 5, 7 or 8 symbols.
pub open spec fn b32_group(c: Seq<u8>) -> Seq<u8>
    recommends
        1 <= c.len() <= 5,
{
    let c0 = c[0];
    let c1: u8 = if c.len() > 1 {
        c[1]
    } else {
        0
    };
    let c2: u8 = if c.len() > 2 {
        c[2]
    } else {
        0
    };
    let c3: u8 = if c.len() > 3 {
        c[3]
    } else {
        0
    };
    let c4: u8 = if c.len() > 4 {
        c[4]
    } else {
        0
    };
    let q0 = b32_sym(c0 as int / 8);
    let q1 = b32_sym((c0 % 8) * 4 + c1 / 64);
    let q2 = b32_sym((c1 as int / 2) % 32);
    let q3 = b32_sym((c1 % 2) * 16 + c2 / 16);
    let q4 = b32_sym((c2 % 16) * 2 + c3 / 128);
    let q5 = b32_sym((c3 as int / 4) % 32);
    let q6 = b32_sym((c3 % 4) * 8 + c4 / 32);
    let q7 = b32_sym(c4 as int % 32);
    if c.len() == 1 {
        seq![q0, q1]
    } else if c.len() == 2 {
        seq![q0, q1, q2, q3]
    } else if c.len() == 3 {
        seq![q0, q1, q2, q3, q4]
    } else if c.len() == 4 {
        seq![q0, q1, q2, q3, q4, q5, q6]
    } else {
        seq![q0, q1, q2, q3, q4, q5, q6, q7]
    }
}

/// The unpadded base32 text of a byte string, as ASCII bytes: successive
/// five-byte groups, a shorter final group with zero padding bits and no
/// padding characters.
pub open spec fn base32_spec(s: Seq<u8>) -> Seq<u8>
    decreases s.len(),
{
    if s.len() == 0 {
        Seq::empty()
    } else if s.len() <= 5 {
        b32_group(s)
    } else {
        b32_group(s.take(5)) + base32_spec(s.skip(5))
    }
}

/// Every symbol of a group is ASCII.
proof fn lemma_b32_group_ascii(c: Seq<u8>)
    requires
        1 <= c.len() <= 5,
    ensures
        all_ascii(b32_group(c)),
{
    let g = b32_group(c);
    assert forall|i: int| 0 <= i < g.len() implies #[trigger] g[i] < 0x80 by {
        assert(forall|v: int| 0 <= v < 32 ==> #[trigger] b32_sym(v) < 0x80);
    }
}

/// Base32 text is ASCII.
pub proof fn lemma_base32_ascii(s: Seq<u8>)
    ensures
        all_ascii(base32_spec(s)),
    decreases s.len(),
{
    if s.len() == 0 {
    } else if s.len() <= 5 {
        lemma_b32_group_ascii(s);
    } else {
        lemma_b32_group_ascii(s.take(5));
        lemma_base32_ascii(s.skip(5));
        crate::ascii::lemma_all_ascii_concat(b32_group(s.take(5)), base32_spec(s.skip(5)));
    }
}

/// The symbol for a five-bit value.
fn b32_symbol(v: u8) -> (r: u8)
    requires
        v < 32,
    ensures
        r == b32_sym(v as int),
{
    if v < 26 {
        0x61 + v
    } else {
        0x32 + (v - 26)
    }
}

/// Append the symbols of one group of up to five bytes.
fn push_group(out: &mut Vec<u8>, c0: u8, c1: u8, c2: u8, c3: u8, c4: u8, len: usize)
    requires
        1 <= len <= 5,
        len <= 1 ==> c1 == 0,
        len <= 2 ==> c2 == 0,
        len <= 3 ==> c3 == 0,
        len <= 4 ==> c4 == 0,
    ensures
        ({
            let c = seq![c0, c1, c2, c3, c4].take(len as int);
            final(out)@ == old(out)@ + b32_group(c)
        }),
{
    let q0 = b32_symbol(c0 / 8);
    let q1 = b32_symbol((c0 % 8) * 4 + c1 / 64);
    let q2 = b32_symbol((c1 / 2) % 32);
    let q3 = b32_symbol((c1 % 2) * 16 + c2 / 16);
    let q4 = b32_symbol((c2 % 16) * 2 + c3 / 128);
    let q5 = b32_symbol((c3 / 4) % 32);
    let q6 = b32_symbol((c3 % 4) * 8 + c4 / 32);
    let q7 = b32_symbol(c4 % 32);
    out.push(q0);
    out.push(q1);
    if len >= 2 {
        out.push(q2);
        out.push(q3);
    }
    if len >= 3 {
        out.push(q4);
    }
    if len >= 4 {
        out.push(q5);
        out.push(q6);
    }
    if len == 5 {
        out.push(q7);
    }
    proof {
        // bytes past `len` are zero, so the spec's zero-padded reads equal
        // the arguments
        let c = seq![c0, c1, c2, c3, c4].take(len as int);
        assert(out@ =~= old(out)@ + b32_group(c));
    }
}

/// Encode a byte string as unpadded base32 text.
pub fn base32_encode(s: &[u8]) -> (r: Vec<u8>)
    ensures
        r@ == base32_spec(s@),
{
    let n = s.len();
    let mut r: Vec<u8> = Vec::new();
    let mut i: usize = 0;
    proof {
        assert(s@.skip(0) =~= s@);
        assert(r@ + base32_spec(s@) =~= base32_spec(s@));
    }
    while n - i > 5
        invariant
            n == s@.len(),
            0 <= i <= n,
            r@ + base32_spec(s@.skip(i as int)) == base32_spec(s@),
        decreases n - i,
    {
        push_group(&mut r, s[i], s[i + 1], s[i + 2], s[i + 3], s[i + 4], 5);
        proof {
            let rem = s@.skip(i as int);
            assert(rem.take(5) =~= seq![
                s@[i as int],
                s@[i + 1],
                s@[i + 2],
                s@[i + 3],
                s@[i + 4],
            ].take(5));
            assert(rem.skip(5) =~= s@.skip(i + 5));
        }
        i = i + 5;
    }
    if i < n {
        let c0 = s[i];
        let c1 = if n - i > 1 {
            s[i + 1]
        } else {
            0
        };
        let c2 = if n - i > 2 {
            s[i + 2]
        } else {
            0
        };
        let c3 = if n - i > 3 {
            s[i + 3]
        } else {
            0
        };
        let c4 = if n - i > 4 {
            s[i + 4]
        } else {
            0
        };
        let len = n - i;
        push_group(&mut r, c0, c1, c2, c3, c4, len);
        proof {
            let rem = s@.skip(i as int);
            let c = seq![c0, c1, c2, c3, c4].take(len as int);
            assert(c =~= rem);
            // a final group of up to five bytes: the spec's zero-padded
            // reads match the padded arguments
            assert(b32_group(c) == b32_group(rem));
        }
        i = n;
    }
    proof {
        assert(s@.skip(n as int) =~= Seq::<u8>::empty());
        assert(r@ =~= base32_spec(s@));
    }
    r
}

} // verus!
