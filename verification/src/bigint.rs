//! Arbitrary-precision integers modelled by their canonical decimal text:
//! a sign and a digit string with no leading zero. The decimal grammar —
//! the interchange form of big integers and token amounts — is this
//! library's own verified logic.

use vstd::prelude::*;

verus! {

use crate::ascii::slice_to_vec_u8;
use vstd::slice::slice_subrange;

/// An ASCII decimal digit byte.
pub open spec fn is_dec_digit(b: u8) -> bool {
    0x30 <= b && b <= 0x39
}

/// Every byte is a decimal digit.
pub open spec fn all_dec_digits(s: Seq<u8>) -> bool {
    forall|i: int| 0 <= i < s.len() ==> is_dec_digit(#[trigger] s[i])
}

/// Powers of ten.
pub open spec fn pow10(k: nat) -> nat
    decreases k,
{
    if k == 0 {
        1
    } else {
        10 * pow10((k - 1) as nat)
    }
}

/// The number a digit string denotes, most significant digit first.
pub open spec fn dec_value(s: Seq<u8>) -> int
    decreases s.len(),
{
    if s.len() == 0 {
        0
    } else {
        dec_value(s.drop_last()) * 10 + (s.last() - 0x30)
    }
}

/// A canonical magnitude: at least one digit, and no leading zero unless
/// the string is exactly `0`.
pub open spec fn canonical_digits(s: Seq<u8>) -> bool {
    s.len() >= 1 && all_dec_digits(s) && (s.len() > 1 ==> s[0] != 0x30)
}

pub proof fn lemma_pow10_pos(k: nat)
    ensures
        pow10(k) >= 1,
    decreases k,
{
    if k > 0 {
        lemma_pow10_pos((k - 1) as nat);
    }
}

pub proof fn lemma_pow10_mono(a: nat, b: nat)
    requires
        a <= b,
    ensures
        pow10(a) <= pow10(b),
    decreases b,
{
    if a < b {
        lemma_pow10_mono(a, (b - 1) as nat);
        lemma_pow10_pos((b - 1) as nat);
    }
}

/// A digit string's value is nonnegative and below ten to its length.
pub proof fn lemma_dec_bounds(s: Seq<u8>)
    requires
        all_dec_digits(s),
    ensures
        0 <= dec_value(s),
        dec_value(s) < pow10(s.len()),
    decreases s.len(),
{
    if s.len() > 0 {
        assert(all_dec_digits(s.drop_last())) by {
            assert(forall|i: int|
                0 <= i < s.len() - 1 ==> #[trigger] s.drop_last()[i] == s[i]);
        }
        lemma_dec_bounds(s.drop_last());
        assert(is_dec_digit(s[s.len() - 1]));
    }
}

/// Reading a digit string from the front: the first digit weighs ten to
/// the remaining length.
pub proof fn lemma_dec_front(s: Seq<u8>)
    requires
        s.len() >= 1,
    ensures
        dec_value(s) == (s[0] - 0x30) * pow10((s.len() - 1) as nat) + dec_value(s.skip(1)),
    decreases s.len(),
{
    if s.len() == 1 {
        reveal_with_fuel(dec_value, 3);
        assert(s.drop_last().len() == 0);
        assert(s.skip(1).len() == 0);
        assert(s.last() == s[0]);
        assert(pow10(0) == 1);
        assert(dec_value(s) == 0 * 10 + (s[0] - 0x30));
    } else {
        let d = s.drop_last();
        lemma_dec_front(d);
        assert(d.skip(1) =~= s.skip(1).drop_last());
        assert(s.skip(1).last() == s.last());
        assert(d[0] == s[0]);
        let a = s[0] - 0x30;
        let p = pow10((s.len() - 2) as nat) as int;
        let x = dec_value(s.skip(1).drop_last());
        assert(dec_value(d) == a * p + x);
        assert(dec_value(s) == (a * p + x) * 10 + (s.last() - 0x30));
        assert(dec_value(s.skip(1)) == x * 10 + (s.last() - 0x30));
        assert((a * p + x) * 10 == a * (10 * p) + x * 10) by (nonlinear_arith);
        assert(pow10((s.len() - 1) as nat) == 10 * pow10((s.len() - 2) as nat));
        assert(dec_value(s) == a * (10 * p) + dec_value(s.skip(1)));
    }
}

/// A leading zero does not change the value.
pub proof fn lemma_strip_zero(s: Seq<u8>)
    requires
        s.len() >= 1,
        s[0] == 0x30,
    ensures
        dec_value(s) == dec_value(s.skip(1)),
{
    lemma_dec_front(s);
}

/// A canonical digit string other than `0` denotes a positive number.
pub proof fn lemma_canonical_pos(s: Seq<u8>)
    requires
        canonical_digits(s),
        s != seq![0x30u8],
    ensures
        dec_value(s) >= 1,
{
    if s.len() == 1 {
        assert(s =~= seq![s[0]]);
        assert(s[0] != 0x30);
        assert(dec_value(s) == dec_value(s.drop_last()) * 10 + (s.last() - 0x30));
        assert(s.drop_last().len() == 0);
    } else {
        lemma_dec_front(s);
        assert(all_dec_digits(s.skip(1))) by {
            assert(forall|i: int|
                0 <= i < s.len() - 1 ==> #[trigger] s.skip(1)[i] == s[i + 1]);
        }
        lemma_dec_bounds(s.skip(1));
        lemma_pow10_pos((s.len() - 1) as nat);
        let a = s[0] - 0x30;
        let p = pow10((s.len() - 1) as nat) as int;
        assert(a >= 1);
        assert(a * p >= p) by (nonlinear_arith)
            requires
                a >= 1,
                p >= 1,
        ;
    }
}

/// Of two equally long digit strings, the one that is smaller at the first
/// differing position denotes the smaller number.
pub proof fn lemma_dec_lex(s: Seq<u8>, t: Seq<u8>, k: int)
    requires
        all_dec_digits(s),
        all_dec_digits(t),
        s.len() == t.len(),
        0 <= k < s.len(),
        forall|i: int| 0 <= i < k ==> s[i] == t[i],
        s[k] < t[k],
    ensures
        dec_value(s) < dec_value(t),
    decreases k,
{
    lemma_dec_front(s);
    lemma_dec_front(t);
    assert(all_dec_digits(s.skip(1)) && all_dec_digits(t.skip(1))) by {
        assert(forall|i: int| 0 <= i < s.len() - 1 ==> #[trigger] s.skip(1)[i] == s[i + 1]);
        assert(forall|i: int| 0 <= i < t.len() - 1 ==> #[trigger] t.skip(1)[i] == t[i + 1]);
    }
    let p = pow10((s.len() - 1) as nat) as int;
    if k == 0 {
        lemma_dec_bounds(s.skip(1));
        lemma_dec_bounds(t.skip(1));
        let a = s[0] - 0x30;
        let b = t[0] - 0x30;
        assert(a + 1 <= b);
        assert(dec_value(s.skip(1)) < p);
        assert(0 <= dec_value(t.skip(1)));
        assert(a * p + p <= b * p) by (nonlinear_arith)
            requires
                a + 1 <= b,
                p >= 0,
        ;
    } else {
        lemma_dec_lex(s.skip(1), t.skip(1), k - 1);
        assert(s[0] == t[0]);
    }
}

/// Of two nonempty canonical-shaped digit strings, the shorter denotes the
/// smaller number.
pub proof fn lemma_dec_shorter(s: Seq<u8>, t: Seq<u8>)
    requires
        all_dec_digits(s),
        canonical_digits(t),
        1 <= s.len() < t.len(),
    ensures
        dec_value(s) < dec_value(t),
{
    lemma_dec_bounds(s);
    assert(t.len() > 1);
    assert(t != seq![0x30u8]);
    lemma_canonical_pos(t);
    lemma_dec_front(t);
    assert(all_dec_digits(t.skip(1))) by {
        assert(forall|i: int| 0 <= i < t.len() - 1 ==> #[trigger] t.skip(1)[i] == t[i + 1]);
    }
    lemma_dec_bounds(t.skip(1));
    let a = t[0] - 0x30;
    let p = pow10((t.len() - 1) as nat) as int;
    assert(a >= 1);
    lemma_pow10_pos((t.len() - 1) as nat);
    assert(a * p >= p) by (nonlinear_arith)
        requires
            a >= 1,
            p >= 1,
    ;
    lemma_pow10_mono(s.len(), (t.len() - 1) as nat);
}

/// The canonical decimal digits of a number, most significant first.
pub open spec fn dec_digits_of(n: nat) -> Seq<u8>
    decreases n,
{
    if n < 10 {
        seq![(0x30 + n) as u8]
    } else {
        dec_digits_of(n / 10).push((0x30 + n % 10) as u8)
    }
}

/// The digits of a number are canonical and denote it.
pub proof fn lemma_dec_digits_of(n: nat)
    ensures
        canonical_digits(dec_digits_of(n)),
        dec_value(dec_digits_of(n)) == n,
    decreases n,
{
    if n < 10 {
        let d = dec_digits_of(n);
        assert(d == seq![(0x30 + n) as u8]);
        assert(d.drop_last() =~= Seq::<u8>::empty());
        assert(dec_value(d) == dec_value(d.drop_last()) * 10 + (d.last() - 0x30));
    } else {
        lemma_dec_digits_of(n / 10);
        let h = dec_digits_of(n / 10);
        let d = dec_digits_of(n);
        assert(d == h.push((0x30 + n % 10) as u8));
        assert(d.drop_last() =~= h);
        assert(d.last() == (0x30 + n % 10) as u8);
        assert(dec_value(d) == dec_value(h) * 10 + (n % 10));
        // the leading digit stays the leading digit of the high part, which
        // is nonzero because the high part is at least one
        assert(d[0] == h[0]);
        if h.len() == 1 {
            assert((n / 10) < 10) by {
                if (n / 10) >= 10 {
                    lemma_dec_digits_of(n / 10 / 10);
                    assert(h.len() >= 2);
                }
            }
            assert(h == seq![(0x30 + n / 10) as u8]);
            assert(n / 10 >= 1);
            assert(h[0] != 0x30);
        }
    }
}

/// The canonical decimal digits of a 64-bit number.
pub fn u64_digits(n: u64) -> (r: Vec<u8>)
    ensures
        r@ == dec_digits_of(n as nat),
    decreases n,
{
    if n < 10 {
        let mut r: Vec<u8> = Vec::new();
        r.push(0x30 + n as u8);
        proof {
            assert(r@ =~= dec_digits_of(n as nat));
        }
        r
    } else {
        let mut r = u64_digits(n / 10);
        r.push(0x30 + (n % 10) as u8);
        r
    }
}

/// An arbitrary-precision integer: a sign and the canonical decimal digits
/// of its magnitude. Zero is never negative.
#[derive(Clone, Debug, PartialEq, Eq, Hash)]
pub struct BigInt {
    /// Whether the value is below zero.
    pub negative: bool,
    /// ASCII decimal digits of the magnitude, most significant first,
    /// without leading zeros.
    pub digits: Vec<u8>,
}

impl BigInt {
    /// Well-formed: canonical digits, and a negative sign only on a
    /// nonzero magnitude.
    pub open spec fn wf(&self) -> bool {
        canonical_digits(self.digits@) && (self.negative ==> self.digits@ != seq![0x30u8])
    }

    /// The integer this value denotes.
    pub open spec fn value_spec(&self) -> int {
        if self.negative {
            -dec_value(self.digits@)
        } else {
            dec_value(self.digits@)
        }
    }

    /// The zero value.
    pub fn zero() -> (r: BigInt)
        ensures
            r.wf(),
            r.value_spec() == 0,
            r.negative == false,
            r.digits@ == seq![0x30u8],
    {
        let mut digits: Vec<u8> = Vec::new();
        digits.push(0x30);
        proof {
            assert(digits@ =~= seq![0x30u8]);
            lemma_single_zero_value();
        }
        BigInt { negative: false, digits }
    }
}

/// The single digit `0` denotes zero.
pub proof fn lemma_single_zero_value()
    ensures
        dec_value(seq![0x30u8]) == 0,
{
    let z = seq![0x30u8];
    assert(z.drop_last() =~= Seq::<u8>::empty());
    assert(dec_value(z) == dec_value(z.drop_last()) * 10 + (z.last() - 0x30));
}

/// Valid decimal text: an optional sign, then at least one digit.
pub open spec fn dec_text_ok(s: Seq<u8>) -> bool {
    if s.len() == 0 {
        false
    } else if s[0] == 0x2b || s[0] == 0x2d {
        s.len() >= 2 && all_dec_digits(s.skip(1))
    } else {
        all_dec_digits(s)
    }
}

/// The integer decimal text denotes.
pub open spec fn dec_text_value(s: Seq<u8>) -> int {
    if s.len() >= 1 && s[0] == 0x2d {
        -dec_value(s.skip(1))
    } else if s.len() >= 1 && s[0] == 0x2b {
        dec_value(s.skip(1))
    } else {
        dec_value(s)
    }
}

/// Leading zeros removed, keeping a last lone zero.
pub open spec fn strip_zeros(s: Seq<u8>) -> Seq<u8>
    decreases s.len(),
{
    if s.len() > 1 && s[0] == 0x30 {
        strip_zeros(s.skip(1))
    } else {
        s
    }
}

/// The canonical digits of valid decimal text: its digit part with
/// leading zeros stripped.
pub open spec fn dec_text_digits(s: Seq<u8>) -> Seq<u8> {
    if s.len() >= 1 && (s[0] == 0x2b || s[0] == 0x2d) {
        strip_zeros(s.skip(1))
    } else {
        strip_zeros(s)
    }
}

/// Whether valid decimal text denotes a negative number: a `-` sign on a
/// nonzero magnitude.
pub open spec fn dec_text_negative(s: Seq<u8>) -> bool {
    s.len() >= 1 && s[0] == 0x2d && dec_text_digits(s) != seq![0x30u8]
}

/// Stripping to the first position that is not a leading zero.
proof fn lemma_strip_zeros_at(t: Seq<u8>, m: int)
    requires
        0 <= m < t.len(),
        forall|k: int| 0 <= k < m ==> t[k] == 0x30,
        m == t.len() - 1 || t[m] != 0x30,
    ensures
        strip_zeros(t) == t.skip(m),
    decreases m,
{
    if m == 0 {
        if t.len() > 1 && t[0] == 0x30 {
            assert(false);
        }
        assert(t.skip(0) =~= t);
    } else {
        assert(t.len() > 1 && t[0] == 0x30);
        lemma_strip_zeros_at(t.skip(1), m - 1);
        assert(t.skip(1).skip(m - 1) =~= t.skip(m));
    }
}

/// Parse decimal text into a big integer. Succeeds exactly on an optional
/// `+` or `-` sign followed by one or more decimal digits; the result is
/// canonical whatever leading zeros the text carried.
pub fn parse_decimal(s: &[u8]) -> (r: Option<BigInt>)
    ensures
        r is Some <==> dec_text_ok(s@),
        r is Some ==> r->0.wf() && r->0.negative == dec_text_negative(s@) && r->0.digits@
            == dec_text_digits(s@) && r->0.value_spec() == dec_text_value(s@),
{
    if s.len() == 0 {
        return None;
    }
    let neg0 = s[0] == 0x2d;
    let start: usize = if s[0] == 0x2d || s[0] == 0x2b {
        1
    } else {
        0
    };
    if s.len() == start {
        return None;
    }
    let mut i: usize = start;
    while i < s.len()
        invariant
            s@.len() >= 1,
            start <= 1,
            (start as int) < s@.len(),
            start == 1 <==> (s@[0] == 0x2b || s@[0] == 0x2d),
            neg0 == (s@[0] == 0x2d),
            start <= i <= s@.len(),
            forall|k: int| start <= k < i ==> is_dec_digit(#[trigger] s@[k]),
        decreases s@.len() - i,
    {
        if !(0x30 <= s[i] && s[i] <= 0x39) {
            proof {
                assert(s@.len() != 0);
                assert(!is_dec_digit(s@[i as int]));
                if start == 1 {
                    assert(s@[0] == 0x2b || s@[0] == 0x2d);
                    assert(s@.skip(1)[i - 1] == s@[i as int]);
                    assert(!all_dec_digits(s@.skip(1)));
                    assert(dec_text_ok(s@) == (s@.len() >= 2 && all_dec_digits(s@.skip(1))));
                } else {
                    assert(!(s@[0] == 0x2b || s@[0] == 0x2d));
                    assert(!all_dec_digits(s@));
                    assert(dec_text_ok(s@) == all_dec_digits(s@));
                }
                assert(!dec_text_ok(s@));
            }
            return None;
        }
        i = i + 1;
    }
    proof {
        let t = s@.skip(start as int);
        assert(forall|k: int| 0 <= k < t.len() ==> #[trigger] t[k] == s@[k + start]);
        assert(all_dec_digits(t));
        if start == 0 {
            assert(t =~= s@);
        }
        assert(dec_text_ok(s@));
    }
    let n = s.len();
    let mut j: usize = start;
    while j < n - 1 && s[j] == 0x30
        invariant
            n == s@.len(),
            start < n,
            start <= 1,
            start == 1 <==> (s@[0] == 0x2b || s@[0] == 0x2d),
            neg0 == (s@[0] == 0x2d),
            forall|k: int| start <= k < n ==> is_dec_digit(#[trigger] s@[k]),
            start <= j < s@.len(),
            forall|k: int| start <= k < j ==> s@[k] == 0x30,
        decreases s@.len() - j,
    {
        j = j + 1;
    }
    let digits = slice_to_vec_u8(slice_subrange(s, j, s.len()));
    let negative = neg0 && !(digits.len() == 1 && digits[0] == 0x30);
    proof {
        let t = s@.skip(start as int);
        let d = digits@;
        assert(d =~= t.skip(j - start));
        // the stripped digits are canonical
        assert(forall|k: int| 0 <= k < d.len() ==> #[trigger] d[k] == s@[k + j]);
        assert(all_dec_digits(d));
        if d.len() > 1 {
            assert(j + 1 < s@.len());
            assert(d[0] == s@[j as int]);
            assert(d[0] != 0x30);
        }
        // stripping leading zeros keeps the value and gives the canonical digits
        lemma_strip_prefix_zeros(t, j - start);
        lemma_strip_zeros_at(t, j - start);
        assert(d == dec_text_digits(s@));
        // the sign: a `-` on a zero magnitude is dropped
        assert((digits.len() == 1 && d[0] == 0x30) <==> d == seq![0x30u8]) by {
            if digits.len() == 1 && d[0] == 0x30 {
                assert(d =~= seq![0x30u8]);
            }
        }
        if neg0 && digits.len() == 1 && d[0] == 0x30 {
            lemma_single_zero_value();
        }
        assert(negative == dec_text_negative(s@));
    }
    Some(BigInt { negative, digits })
}

/// Stripping any run of leading zeros keeps a digit string's value.
proof fn lemma_strip_prefix_zeros(t: Seq<u8>, m: int)
    requires
        0 <= m < t.len(),
        forall|k: int| 0 <= k < m ==> t[k] == 0x30,
    ensures
        dec_value(t) == dec_value(t.skip(m)),
    decreases m,
{
    if m > 0 {
        lemma_strip_zero(t);
        lemma_strip_prefix_zeros(t.skip(1), m - 1);
        assert(t.skip(1).skip(m - 1) =~= t.skip(m));
    } else {
        assert(t.skip(0) =~= t);
    }
}

/// Compare the magnitudes two canonical digit strings denote: negative,
/// zero or positive as the first is below, equal to or above the second.
fn cmp_digits(a: &Vec<u8>, b: &Vec<u8>) -> (r: i32)
    requires
        canonical_digits(a@),
        canonical_digits(b@),
    ensures
        r == -1 || r == 0 || r == 1,
        r == -1 <==> dec_value(a@) < dec_value(b@),
        r == 0 <==> dec_value(a@) == dec_value(b@),
        r == 1 <==> dec_value(a@) > dec_value(b@),
{
    if a.len() < b.len() {
        proof {
            lemma_dec_shorter(a@, b@);
        }
        return -1;
    }
    if b.len() < a.len() {
        proof {
            lemma_dec_shorter(b@, a@);
        }
        return 1;
    }
    let mut i: usize = 0;
    while i < a.len()
        invariant
            a@.len() == b@.len(),
            canonical_digits(a@),
            canonical_digits(b@),
            0 <= i <= a@.len(),
            forall|k: int| 0 <= k < i ==> a@[k] == b@[k],
        decreases a@.len() - i,
    {
        if a[i] < b[i] {
            proof {
                lemma_dec_lex(a@, b@, i as int);
            }
            return -1;
        }
        if b[i] < a[i] {
            proof {
                lemma_dec_lex(b@, a@, i as int);
            }
            return 1;
        }
        i = i + 1;
    }
    proof {
        assert(a@ =~= b@);
    }
    0
}

/// The big-endian magnitude bytes of the number a nonzero canonical digit
/// string denotes, with no leading zero byte. A function of the digits
/// alone.
pub uninterp spec fn be_mag_of(digits: Seq<u8>) -> Seq<u8>;

/// Relies on num-bigint (re-exported by `fvm_shared`): `from_str` on
/// canonical decimal digits, then `to_bytes_be`. The magnitude is a
/// deterministic function of the digits; it is at least one byte for a
/// nonzero value, and never longer than the digit count, since each byte
/// carries more than one decimal digit of information.
#[verifier::external_body]
pub(crate) fn be_magnitude(digits: &Vec<u8>) -> (r: Vec<u8>)
    requires
        canonical_digits(digits@),
        digits@ != seq![0x30u8],
    ensures
        r@ == be_mag_of(digits@),
        1 <= r@.len() <= digits@.len(),
{
    let s = core::str::from_utf8(digits).unwrap();
    let n = <fvm_shared::bigint::BigInt as core::str::FromStr>::from_str(s).unwrap();
    n.to_bytes_be().1
}

/// A token amount: attos as a big integer. Amounts are kept within the
/// size the canonical wire encoding accepts.
#[derive(Clone, Debug, PartialEq, Eq)]
pub struct TokenAmount {
    /// The amount in attos.
    pub attos: BigInt,
}

/// The widest magnitude an amount may have, in decimal digits. The
/// canonical wire encoding caps a big integer at 128 bytes — one sign
/// byte and at most 127 magnitude bytes — and 305 digits is the largest
/// digit count that always fits (ten to the 305th is below 256 to the
/// 127th). The cap is conservative: a few 306-digit values would also
/// fit but are rejected. It is far beyond any token supply; text wider
/// than this is refused up front rather than accepted and then failed at
/// encoding time.
pub const MAX_AMOUNT_DIGITS: usize = 305;

impl TokenAmount {
    /// Well-formed: a well-formed integer that fits the wire encoding.
    pub open spec fn wf(&self) -> bool {
        self.attos.wf() && self.attos.digits@.len() <= MAX_AMOUNT_DIGITS
    }

    /// The amount in attos, as an integer.
    pub open spec fn value_spec(&self) -> int {
        self.attos.value_spec()
    }

    /// The zero amount.
    pub fn zero() -> (r: TokenAmount)
        ensures
            r.wf(),
            r.value_spec() == 0,
            r.attos.negative == false,
            r.attos.digits@ == seq![0x30u8],
    {
        TokenAmount { attos: BigInt::zero() }
    }

    /// Whether this amount is strictly above the other.
    pub fn gt(&self, other: &TokenAmount) -> (r: bool)
        requires
            self.wf(),
            other.wf(),
        ensures
            r == (self.value_spec() > other.value_spec()),
    {
        self.attos.gt(&other.attos)
    }
}

impl BigInt {
    /// Whether this value is strictly above the other.
    pub fn gt(&self, other: &BigInt) -> (r: bool)
        requires
            self.wf(),
            other.wf(),
        ensures
            r == (self.value_spec() > other.value_spec()),
    {
        proof {
            lemma_dec_bounds(self.digits@);
            lemma_dec_bounds(other.digits@);
            if self.negative {
                lemma_canonical_pos(self.digits@);
            }
            if other.negative {
                lemma_canonical_pos(other.digits@);
            }
        }
        if !self.negative && other.negative {
            true
        } else if self.negative && !other.negative {
            false
        } else if !self.negative && !other.negative {
            cmp_digits(&self.digits, &other.digits) == 1
        } else {
            cmp_digits(&self.digits, &other.digits) == -1
        }
    }
}

} // verus!
