//! A model of the arbitrary-precision decimal wire values.
//!
//! The driver's numeric column kind carries arbitrary-precision decimals.
//! [`WireDecimal`] holds such a value as plain data — a sign flag, the
//! base-10 digits of the unscaled magnitude, and a decimal exponent — so
//! that the codecs' validation logic can be stated and proved exactly.
//! The represented value is `(-1)^negative * unscaled(digits) * 10^(-scale)`.
//! All the codecs need of that value is captured by three spec functions:
//! [`mag_floor`] (the integer part of its magnitude), [`frac_nonzero`]
//! (whether a fractional part remains), and [`is_negative_value`].

use vstd::arithmetic::div_mod::lemma_basic_div;
use vstd::arithmetic::div_mod::lemma_div_basics_2;
use vstd::arithmetic::div_mod::lemma_div_pos_is_pos;
use vstd::arithmetic::div_mod::lemma_fundamental_div_mod;
use vstd::arithmetic::div_mod::lemma_fundamental_div_mod_converse;
use vstd::arithmetic::div_mod::lemma_mod_bound;
use vstd::arithmetic::div_mod::lemma_small_mod;
use vstd::arithmetic::mul::lemma_mul_inequality;
use vstd::arithmetic::mul::lemma_mul_nonnegative;
use vstd::prelude::*;

verus! {

/// An arbitrary-precision decimal wire value, as the driver hands it over:
/// a sign flag, the base-10 digits of the unscaled magnitude (most
/// significant first), and a decimal exponent. The value represented is
/// the unscaled magnitude times ten to the power `-scale`, negated when
/// `negative` is set; a value whose digits are all zero is zero whatever
/// the sign flag says.
pub struct WireDecimal {
    /// Sign flag; when every digit is zero the value is zero regardless.
    pub negative: bool,
    /// Base-10 digits of the unscaled magnitude, most significant first.
    pub digits: Vec<u8>,
    /// Decimal exponent; a positive scale shifts the point left.
    pub scale: i64,
}

/// Every entry is an actual base-10 digit.
pub open spec fn digits_wf(ds: Seq<u8>) -> bool {
    forall|i: int| 0 <= i < ds.len() ==> ds[i] < 10
}

/// The unscaled magnitude: the digits read in base ten.
pub open spec fn unscaled(ds: Seq<u8>) -> nat
    decreases ds.len(),
{
    if ds.len() == 0 {
        0
    } else {
        unscaled(ds.drop_last()) * 10 + ds.last() as nat
    }
}

/// Ten to the power `e`.
pub open spec fn pow10(e: nat) -> nat
    decreases e,
{
    if e == 0 {
        1nat
    } else {
        10 * pow10((e - 1) as nat)
    }
}

impl WireDecimal {
    /// Well-formedness: the digit sequence holds base-10 digits only.
    pub open spec fn wf(self) -> bool {
        digits_wf(self.digits@)
    }
}

/// The integer part of the magnitude of the represented value.
pub open spec fn mag_floor(d: WireDecimal) -> nat {
    if d.scale >= 0 {
        unscaled(d.digits@) / pow10(d.scale as nat)
    } else {
        unscaled(d.digits@) * pow10((-d.scale) as nat)
    }
}

/// Whether the represented value has a non-zero fractional part.
pub open spec fn frac_nonzero(d: WireDecimal) -> bool {
    d.scale > 0 && unscaled(d.digits@) % pow10(d.scale as nat) != 0
}

/// Whether the represented value is strictly negative.
pub open spec fn is_negative_value(d: WireDecimal) -> bool {
    d.negative && unscaled(d.digits@) != 0
}

/// Whether the magnitude of the represented value strictly exceeds
/// `u64::MAX`.
pub open spec fn exceeds_u64(d: WireDecimal) -> bool {
    mag_floor(d) > u64::MAX || (mag_floor(d) == u64::MAX && frac_nonzero(d))
}

pub proof fn lemma_pow10_pos(e: nat)
    ensures
        pow10(e) >= 1,
    decreases e,
{
    if e > 0 {
        lemma_pow10_pos((e - 1) as nat);
    }
}

pub proof fn lemma_pow10_monotone(a: nat, b: nat)
    requires
        a <= b,
    ensures
        pow10(a) <= pow10(b),
    decreases b,
{
    if a < b {
        lemma_pow10_monotone(a, (b - 1) as nat);
        lemma_pow10_pos((b - 1) as nat);
    }
}

pub proof fn lemma_pow10_20()
    ensures
        pow10(19) == 10_000_000_000_000_000_000,
        pow10(20) == 100_000_000_000_000_000_000,
{
    assert(pow10(19) == 10_000_000_000_000_000_000 && pow10(20)
        == 100_000_000_000_000_000_000) by {
        reveal_with_fuel(pow10, 21);
    }
}

/// Reading a concatenation of digit blocks in base ten: the left block is
/// shifted past the right block.
pub proof fn lemma_unscaled_split(a: Seq<u8>, b: Seq<u8>)
    ensures
        unscaled(a + b) == unscaled(a) * pow10(b.len()) + unscaled(b),
    decreases b.len(),
{
    if b.len() == 0 {
        assert(a + b =~= a);
        assert(pow10(b.len()) == 1);
        assert(unscaled(b) == 0);
        assert(unscaled(a) * 1 == unscaled(a));
    } else {
        let b0 = b.drop_last();
        assert((a + b).drop_last() =~= a + b0);
        lemma_unscaled_split(a, b0);
        let u = unscaled(a);
        let p0 = pow10(b0.len() as nat);
        assert(unscaled(a + b) == unscaled(a + b0) * 10 + (a + b).last() as nat);
        assert((a + b).last() == b.last());
        assert(unscaled(b) == unscaled(b0) * 10 + b.last() as nat);
        assert(pow10(b.len() as nat) == 10 * p0);
        assert((u * p0 + unscaled(b0)) * 10 == u * (10 * p0) + unscaled(b0) * 10)
            by (nonlinear_arith);
        lemma_mul_nonnegative(u as int, pow10(b.len() as nat) as int);
        assert(unscaled(a + b) == u * pow10(b.len() as nat) + unscaled(b));
    }
}

/// A sequence of `n` base-10 digits reads below `10^n`.
pub proof fn lemma_unscaled_bound(ds: Seq<u8>)
    requires
        digits_wf(ds),
    ensures
        unscaled(ds) < pow10(ds.len() as nat),
    decreases ds.len(),
{
    if ds.len() > 0 {
        assert(digits_wf(ds.drop_last()));
        lemma_unscaled_bound(ds.drop_last());
        assert(ds.last() < 10);
    }
}

/// The digits read as zero exactly when every digit is zero.
pub proof fn lemma_unscaled_zero(ds: Seq<u8>)
    ensures
        unscaled(ds) == 0 <==> (forall|i: int| 0 <= i < ds.len() ==> ds[i] == 0),
    decreases ds.len(),
{
    if ds.len() > 0 {
        lemma_unscaled_zero(ds.drop_last());
        if unscaled(ds) == 0 {
            assert forall|i: int| 0 <= i < ds.len() implies ds[i] == 0 by {
                if i < ds.len() - 1 {
                    assert(ds.drop_last()[i] == ds[i]);
                }
            }
        } else {
            if forall|i: int| 0 <= i < ds.len() ==> ds[i] == 0 {
                assert forall|i: int| 0 <= i < ds.drop_last().len() implies ds.drop_last()[i]
                    == 0 by {
                    assert(ds.drop_last()[i] == ds[i]);
                }
                assert(ds.last() == ds[ds.len() - 1]);
            }
        }
    }
}

/// A longer prefix never reads smaller.
pub proof fn lemma_unscaled_prefix_le(ds: Seq<u8>, i: int, j: int)
    requires
        0 <= i <= j <= ds.len(),
    ensures
        unscaled(ds.subrange(0, i)) <= unscaled(ds.subrange(0, j)),
{
    let a = ds.subrange(0, i);
    let m = ds.subrange(i, j);
    assert(ds.subrange(0, j) =~= a + m);
    lemma_unscaled_split(a, m);
    lemma_pow10_pos(m.len() as nat);
    let u = unscaled(a);
    let p = pow10(m.len() as nat);
    assert(u * p >= u * 1) by (nonlinear_arith)
        requires
            p >= 1,
            u >= 0,
    ;
}

/// The represented value is zero exactly when the integer part of its
/// magnitude is zero and no fractional part remains.
pub proof fn lemma_zero_value(d: WireDecimal)
    requires
        d.wf(),
    ensures
        unscaled(d.digits@) == 0 <==> (mag_floor(d) == 0 && !frac_nonzero(d)),
{
    let u = unscaled(d.digits@);
    if d.scale >= 0 {
        let p = pow10(d.scale as nat);
        lemma_pow10_pos(d.scale as nat);
        lemma_fundamental_div_mod(u as int, p as int);
        lemma_mod_bound(u as int, p as int);
        if u == 0 {
            lemma_basic_div(0, p as int);
            lemma_small_mod(0, p);
        } else if d.scale == 0 {
            lemma_div_basics_2(u as int);
        } else {
            if mag_floor(d) == 0 && !frac_nonzero(d) {
                let q = u as int / p as int;
                assert((p as int) * q == 0) by (nonlinear_arith)
                    requires
                        q == 0,
                ;
            }
        }
    } else {
        let pe = pow10((-d.scale) as nat);
        lemma_pow10_pos((-d.scale) as nat);
        assert(u * pe == 0 <==> u == 0) by (nonlinear_arith)
            requires
                pe >= 1,
                u >= 0,
        ;
    }
}

/// Ten to the power `e`, executably, for exponents whose power fits.
fn pow10_x(e: u64) -> (r: u64)
    requires
        e <= 19,
    ensures
        r as nat == pow10(e as nat),
        r >= 1,
{
    let mut r: u64 = 1;
    let mut i: u64 = 0;
    while i < e
        invariant
            i <= e,
            e <= 19,
            r as nat == pow10(i as nat),
        decreases e - i,
    {
        proof {
            lemma_pow10_monotone((i + 1) as nat, 19);
            lemma_pow10_20();
        }
        r = r * 10;
        i = i + 1;
    }
    proof {
        lemma_pow10_pos(e as nat);
    }
    r
}

/// The base-ten reading of the first `k` digits, or `None` when that
/// reading exceeds `u64::MAX`.
fn unscaled_prefix(ds: &Vec<u8>, k: usize) -> (r: Option<u64>)
    requires
        k <= ds@.len(),
    ensures
        r matches Some(v) ==> v as nat == unscaled(ds@.subrange(0, k as int)),
        r is None ==> unscaled(ds@.subrange(0, k as int)) > u64::MAX,
{
    let mut acc: u64 = 0;
    let mut i: usize = 0;
    while i < k
        invariant
            i <= k,
            k <= ds@.len(),
            acc as nat == unscaled(ds@.subrange(0, i as int)),
        decreases k - i,
    {
        let d = ds[i];
        proof {
            assert(ds@.subrange(0, (i + 1) as int).drop_last() =~= ds@.subrange(0, i as int));
            assert(ds@.subrange(0, (i + 1) as int).last() == ds@[i as int]);
        }
        if acc > (u64::MAX - (d as u64)) / 10 {
            proof {
                lemma_fundamental_div_mod((u64::MAX - d) as int, 10);
                assert(acc as nat * 10 + d as nat > u64::MAX);
                lemma_unscaled_prefix_le(ds@, (i + 1) as int, k as int);
            }
            return None;
        }
        proof {
            lemma_fundamental_div_mod((u64::MAX - d) as int, 10);
            assert(acc as nat * 10 + d as nat <= u64::MAX);
        }
        acc = acc * 10 + (d as u64);
        i = i + 1;
    }
    proof {
        assert(ds@.subrange(0, k as int) =~= ds@.subrange(0, i as int));
    }
    Some(acc)
}

/// Whether any digit at or after position `from` is non-zero; equivalently,
/// whether the tail reads non-zero in base ten.
#[verifier::loop_isolation(false)]
fn range_nonzero(ds: &Vec<u8>, from: usize) -> (r: bool)
    requires
        from <= ds@.len(),
    ensures
        r == (unscaled(ds@.subrange(from as int, ds@.len() as int)) != 0),
{
    let ghost tail = ds@.subrange(from as int, ds@.len() as int);
    proof {
        lemma_unscaled_zero(tail);
    }
    let mut i: usize = from;
    while i < ds.len()
        invariant
            from <= i <= ds@.len(),
            tail == ds@.subrange(from as int, ds@.len() as int),
            forall|j: int| 0 <= j < i - from ==> tail[j] == 0,
        decreases ds@.len() - i,
    {
        if ds[i] != 0 {
            proof {
                assert(tail[i - from] == ds@[i as int]);
            }
            return true;
        }
        i = i + 1;
    }
    false
}

/// The base-ten digits of `v`, most significant first, with no leading zero.
#[verifier::loop_isolation(false)]
pub fn digits_of(v: u64) -> (r: Vec<u8>)
    ensures
        digits_wf(r@),
        unscaled(r@) == v as nat,
{
    let mut out: Vec<u8> = Vec::new();
    let mut rem: u64 = v;
    proof {
        assert(out@.len() == 0);
        assert(unscaled(out@) == 0);
        assert(pow10(out@.len() as nat) == 1);
    }
    while rem > 0
        invariant
            digits_wf(out@),
            v as nat == rem as nat * pow10(out@.len() as nat) + unscaled(out@),
        decreases rem,
    {
        let d: u8 = (rem % 10) as u8;
        let ghost old_out = out@;
        let ghost p = pow10(out@.len() as nat);
        out.insert(0, d);
        proof {
            reveal_with_fuel(unscaled, 2);
            assert(out@ =~= seq![d] + old_out);
            assert(seq![d].drop_last() =~= Seq::<u8>::empty());
            assert(unscaled(seq![d]) == d as nat);
            lemma_unscaled_split(seq![d], old_out);
            let q = (rem / 10) as nat;
            let dd = (rem % 10) as nat;
            assert(rem as nat == 10 * q + dd);
            assert((10 * q + dd) * p == q * (10 * p) + dd * p) by (nonlinear_arith);
        }
        rem = rem / 10;
    }
    out
}

/// The integer part of the magnitude (when it fits in a `u64`) and whether
/// a fractional part remains. A `None` magnitude means the integer part
/// exceeds `u64::MAX`.
pub fn mag_and_frac(d: &WireDecimal) -> (r: (Option<u64>, bool))
    requires
        d.wf(),
    ensures
        r.1 == frac_nonzero(*d),
        r.0 matches Some(v) ==> v as nat == mag_floor(*d),
        r.0 is None ==> mag_floor(*d) > u64::MAX,
{
    let n = d.digits.len();
    let ghost u = unscaled(d.digits@);
    if d.scale >= 0 {
        let ghost p = pow10(d.scale as nat);
        proof {
            lemma_pow10_pos(d.scale as nat);
        }
        let int_len: usize = if d.scale as u64 >= n as u64 {
            0
        } else {
            n - (d.scale as usize)
        };
        let ghost head = d.digits@.subrange(0, int_len as int);
        let ghost tail = d.digits@.subrange(int_len as int, n as int);
        proof {
            assert(d.digits@ =~= head + tail);
            lemma_unscaled_split(head, tail);
            assert(digits_wf(tail));
            lemma_unscaled_bound(tail);
            if d.scale as u64 >= n as u64 {
                lemma_pow10_monotone(n as nat, d.scale as nat);
                assert(unscaled(head) == 0);
                lemma_basic_div(u as int, p as int);
                lemma_small_mod(u, p);
            } else {
                assert(tail.len() == d.scale as nat);
                lemma_fundamental_div_mod_converse(
                    u as int,
                    p as int,
                    unscaled(head) as int,
                    unscaled(tail) as int,
                );
            }
            lemma_div_pos_is_pos(u as int, p as int);
            assert(mag_floor(*d) == unscaled(head));
            assert(u % p == unscaled(tail));
        }
        let frac = d.scale > 0 && range_nonzero(&d.digits, int_len);
        let mag = unscaled_prefix(&d.digits, int_len);
        (mag, frac)
    } else {
        let extra: u64 = (-(d.scale as i128)) as u64;
        let ghost pe = pow10(extra as nat);
        proof {
            lemma_pow10_pos(extra as nat);
        }
        let base_opt = unscaled_prefix(&d.digits, n);
        proof {
            assert(d.digits@.subrange(0, n as int) =~= d.digits@);
        }
        match base_opt {
            None => {
                proof {
                    assert(u * pe >= u * 1) by (nonlinear_arith)
                        requires
                            pe >= 1,
                            u >= 0,
                    ;
                }
                (None, false)
            },
            Some(base) => {
                proof {
                    lemma_mul_nonnegative(u as int, pe as int);
                }
                if base == 0 {
                    proof {
                        assert(u * pe == 0) by (nonlinear_arith)
                            requires
                                u == 0,
                        ;
                        assert(mag_floor(*d) == 0);
                    }
                    (Some(0), false)
                } else if extra >= 20 {
                    proof {
                        lemma_pow10_20();
                        lemma_pow10_monotone(20, extra as nat);
                        assert(u * pe >= 1 * pe) by (nonlinear_arith)
                            requires
                                u >= 1,
                                pe >= 0,
                        ;
                    }
                    (None, false)
                } else {
                    let px = pow10_x(extra);
                    if base > u64::MAX / px {
                        proof {
                            lemma_fundamental_div_mod(u64::MAX as int, px as int);
                            lemma_mod_bound(u64::MAX as int, px as int);
                            let q = (u64::MAX as int) / (px as int);
                            let m = (u64::MAX as int) % (px as int);
                            assert(u * pe > u64::MAX) by (nonlinear_arith)
                                requires
                                    u as int >= q + 1,
                                    pe == px as nat,
                                    u64::MAX as int == (px as int) * q + m,
                                    0 <= m < px as int,
                            ;
                            assert(mag_floor(*d) > u64::MAX);
                        }
                        (None, false)
                    } else {
                        proof {
                            lemma_fundamental_div_mod(u64::MAX as int, px as int);
                            lemma_mod_bound(u64::MAX as int, px as int);
                            let q = (u64::MAX as int) / (px as int);
                            let m = (u64::MAX as int) % (px as int);
                            assert(u * pe <= u64::MAX) by (nonlinear_arith)
                                requires
                                    u as int <= q,
                                    pe == px as nat,
                                    u64::MAX as int == (px as int) * q + m,
                                    0 <= m,
                            ;
                            assert(mag_floor(*d) == u * pe);
                        }
                        (Some(base * px), false)
                    }
                }
            },
        }
    }
}

impl WireDecimal {
    /// The exact decimal representation of `v`: non-negative, integral.
    pub fn from_u64(v: u64) -> (r: WireDecimal)
        ensures
            r.wf(),
            !r.negative,
            mag_floor(r) == v as nat,
            !frac_nonzero(r),
            !is_negative_value(r),
    {
        let digits = digits_of(v);
        let r = WireDecimal { negative: false, digits, scale: 0 };
        proof {
            assert(pow10(0) == 1);
            lemma_div_basics_2(unscaled(r.digits@) as int);
        }
        r
    }

    /// The exact decimal representation of a signed magnitude: integral,
    /// negative exactly when `negative` is set and `v` is non-zero.
    pub fn from_u64_signed(v: u64, negative: bool) -> (r: WireDecimal)
        ensures
            r.wf(),
            mag_floor(r) == v as nat,
            !frac_nonzero(r),
            is_negative_value(r) == (negative && v != 0),
    {
        let digits = digits_of(v);
        let r = WireDecimal { negative, digits, scale: 0 };
        proof {
            assert(pow10(0) == 1);
            lemma_div_basics_2(unscaled(r.digits@) as int);
        }
        r
    }
}

} // verus!
