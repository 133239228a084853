//! Double-precision readings.
//!
//! A measured quantity reaches the library as a [`Number`]: the IEEE-754 bits of the double and
//! the two texts it prints as. Comparisons are decided on the bits, by integer arithmetic.
use vstd::arithmetic::power2::*;
use vstd::prelude::*;

verus! {

/// A double-precision value.
#[derive(Debug)]
pub struct Number {
    /// Its IEEE-754 binary64 bits.
    pub bits: u64,
    /// The text that messages show it as.
    pub display: String,
    /// The text that diagnostics of optional values show it as.
    pub debug: String,
}

/// Two to the power of 52, the weight of the exponent field.
pub open spec fn exponent_weight() -> int {
    0x10_0000_0000_0000
}

/// Two to the power of 63, the weight of the sign bit.
pub open spec fn sign_weight() -> int {
    0x8000_0000_0000_0000
}

pub open spec fn negative(bits: u64) -> bool {
    bits >= sign_weight()
}

/// The bits below the sign.
pub open spec fn magnitude(bits: u64) -> int {
    bits as int % sign_weight()
}

pub open spec fn exponent_field(bits: u64) -> int {
    magnitude(bits) / exponent_weight()
}

pub open spec fn fraction_field(bits: u64) -> int {
    magnitude(bits) % exponent_weight()
}

/// Neither an infinity nor a NaN.
pub open spec fn finite(bits: u64) -> bool {
    exponent_field(bits) != 2047
}

pub open spec fn nan(bits: u64) -> bool {
    exponent_field(bits) == 2047 && fraction_field(bits) != 0
}

/// Sign and magnitude as one integer: the doubles that are not NaN are ordered as their keys are,
/// and the two zeros share a key.
pub open spec fn order_key(bits: u64) -> int {
    if negative(bits) {
        -magnitude(bits)
    } else {
        magnitude(bits)
    }
}

/// `a == b` on doubles.
pub open spec fn eq(a: u64, b: u64) -> bool {
    !nan(a) && !nan(b) && order_key(a) == order_key(b)
}

/// `a >= b` on doubles.
pub open spec fn ge(a: u64, b: u64) -> bool {
    !nan(a) && !nan(b) && order_key(a) >= order_key(b)
}

/// `a > b` on doubles.
pub open spec fn gt(a: u64, b: u64) -> bool {
    !nan(a) && !nan(b) && order_key(a) > order_key(b)
}

/// A finite value above zero.
pub open spec fn positive(bits: u64) -> bool {
    finite(bits) && order_key(bits) > 0
}

/// The magnitude of a finite double, in units of the smallest subnormal (two to the power of
/// -1074).
pub open spec fn magnitude_units(m: int) -> int {
    let e = m / exponent_weight();
    let f = m % exponent_weight();
    if e == 0 {
        f
    } else {
        (exponent_weight() + f) * pow2((e - 1) as nat)
    }
}

/// The exact value of a finite double, in units of the smallest subnormal.
pub open spec fn units(bits: u64) -> int {
    if negative(bits) {
        -magnitude_units(magnitude(bits))
    } else {
        magnitude_units(magnitude(bits))
    }
}

proof fn lemma_below_next_binade(m: int)
    requires
        0 <= m,
    ensures
        magnitude_units(m) < exponent_weight() * pow2((m / exponent_weight()) as nat),
        magnitude_units(m) >= 0,
{
    let w = exponent_weight();
    let e = m / w;
    let f = m % w;
    if e == 0 {
        lemma2_to64();
        assert(w * pow2(0) == w) by (nonlinear_arith)
            requires
                pow2(0) == 1,
        ;
    } else {
        let p = pow2((e - 1) as nat) as int;
        lemma_pow2_unfold(e as nat);
        lemma_pow2_pos((e - 1) as nat);
        assert((w + f) * p < w * (2 * p) && (w + f) * p >= 0) by (nonlinear_arith)
            requires
                0 <= f < w,
                p > 0,
        ;
    }
}

proof fn lemma_pow2_le(a: nat, b: nat)
    requires
        a <= b,
    ensures
        pow2(a) <= pow2(b),
{
    if a < b {
        lemma_pow2_strictly_increases(a, b);
    }
}

proof fn lemma_units_increase(m: int, n: int)
    requires
        0 <= m < n,
    ensures
        magnitude_units(m) < magnitude_units(n),
{
    let w = exponent_weight();
    let em = m / w;
    let en = n / w;
    let fm = m % w;
    let fn_ = n % w;
    if em == en {
        if em > 0 {
            let p = pow2((em - 1) as nat) as int;
            lemma_pow2_pos((em - 1) as nat);
            assert((w + fm) * p < (w + fn_) * p) by (nonlinear_arith)
                requires
                    fm < fn_,
                    p > 0,
            ;
        }
    } else {
        lemma_below_next_binade(m);
        lemma_pow2_le(em as nat, (en - 1) as nat);
        let p = pow2(em as nat) as int;
        let q = pow2((en - 1) as nat) as int;
        lemma_pow2_pos((en - 1) as nat);
        assert(w * p <= (w + fn_) * q) by (nonlinear_arith)
            requires
                p <= q,
                q > 0,
                0 <= fn_,
                w > 0,
        ;
    }
}

/// Comparing two finite doubles by their keys is comparing their exact values.
pub proof fn keys_order_by_value(a: u64, b: u64)
    requires
        finite(a),
        finite(b),
    ensures
        order_key(a) < order_key(b) <==> units(a) < units(b),
        order_key(a) == order_key(b) <==> units(a) == units(b),
{
    let m = magnitude(a);
    let n = magnitude(b);
    assert(magnitude_units(0) == 0);
    if m < n {
        lemma_units_increase(m, n);
    } else if n < m {
        lemma_units_increase(n, m);
    }
    if m > 0 {
        lemma_units_increase(0, m);
    }
    if n > 0 {
        lemma_units_increase(0, n);
    }
}

fn exponent_of(bits: u64) -> (r: u64)
    ensures
        r == exponent_field(bits),
{
    (bits % 0x8000_0000_0000_0000) / 0x10_0000_0000_0000
}

fn fraction_of(bits: u64) -> (r: u64)
    ensures
        r == fraction_field(bits),
{
    (bits % 0x8000_0000_0000_0000) % 0x10_0000_0000_0000
}

fn key_of(bits: u64) -> (r: i64)
    ensures
        r == order_key(bits),
{
    let m: i64 = (bits % 0x8000_0000_0000_0000) as i64;
    if bits >= 0x8000_0000_0000_0000 {
        -m
    } else {
        m
    }
}

/// Whether the double is neither an infinity nor a NaN.
pub fn is_finite(bits: u64) -> (r: bool)
    ensures
        r == finite(bits),
{
    exponent_of(bits) != 2047
}

/// Whether the double is a NaN.
pub fn is_nan(bits: u64) -> (r: bool)
    ensures
        r == nan(bits),
{
    exponent_of(bits) == 2047 && fraction_of(bits) != 0
}

/// Whether the double is finite and above zero.
pub fn is_positive(bits: u64) -> (r: bool)
    ensures
        r == positive(bits),
{
    is_finite(bits) && key_of(bits) > 0
}

/// `a == b` on doubles.
pub fn equal(a: u64, b: u64) -> (r: bool)
    ensures
        r == eq(a, b),
{
    !is_nan(a) && !is_nan(b) && key_of(a) == key_of(b)
}

/// `a >= b` on doubles.
pub fn at_least(a: u64, b: u64) -> (r: bool)
    ensures
        r == ge(a, b),
{
    !is_nan(a) && !is_nan(b) && key_of(a) >= key_of(b)
}

/// `a > b` on doubles.
pub fn above(a: u64, b: u64) -> (r: bool)
    ensures
        r == gt(a, b),
{
    !is_nan(a) && !is_nan(b) && key_of(a) > key_of(b)
}

/// The bits of zero.
pub const ZERO_BITS: u64 = 0;

impl Number {
    /// A constant with its two texts.
    pub fn constant(bits: u64, display: &str, debug: &str) -> (r: Number)
        ensures
            r.bits == bits,
            r.display@ == display@,
            r.debug@ == debug@,
    {
        Number { bits, display: display.to_owned(), debug: debug.to_owned() }
    }

    /// Another copy of the value.
    pub fn duplicate(&self) -> (r: Number)
        ensures
            r == *self,
    {
        Number { bits: self.bits, display: self.display.clone(), debug: self.debug.clone() }
    }

    /// Zero.
    pub fn zero() -> (r: Number)
        ensures
            r.is_zero(),
    {
        Number::constant(ZERO_BITS, "0", "0.0")
    }

    pub open spec fn is_zero(self) -> bool {
        self.bits == ZERO_BITS && self.display@ == "0"@ && self.debug@ == "0.0"@
    }
}

/// Another copy of an optional value.
pub fn duplicate_option(n: &Option<Number>) -> (r: Option<Number>)
    ensures
        r == *n,
{
    match n {
        Some(x) => Some(x.duplicate()),
        None => None,
    }
}

/// Comparisons of finite doubles are comparisons of their exact values, and a finite double is
/// positive exactly when its value is.
pub proof fn finite_doubles_compare_by_value(a: u64, b: u64)
    requires
        finite(a),
        finite(b),
    ensures
        eq(a, b) <==> units(a) == units(b),
        ge(a, b) <==> units(a) >= units(b),
        gt(a, b) <==> units(a) > units(b),
        positive(a) <==> units(a) > 0,
{
    keys_order_by_value(a, b);
    keys_order_by_value(a, 0);
    assert(magnitude_units(0) == 0);
}

/// A NaN compares with nothing, and is neither finite nor positive.
pub proof fn a_nan_compares_with_nothing(a: u64, b: u64)
    requires
        nan(a),
    ensures
        !eq(a, b) && !eq(b, a),
        !ge(a, b) && !ge(b, a),
        !gt(a, b) && !gt(b, a),
        !finite(a),
        !positive(a),
{
}

/// The infinities lie beyond every finite double and equal themselves alone; neither is finite or
/// positive.
pub proof fn infinities_lie_beyond(a: u64)
    requires
        finite(a),
    ensures
        gt(0x7ff0_0000_0000_0000, a) && !ge(a, 0x7ff0_0000_0000_0000),
        gt(a, 0xfff0_0000_0000_0000) && !ge(0xfff0_0000_0000_0000, a),
        eq(0x7ff0_0000_0000_0000, 0x7ff0_0000_0000_0000),
        !finite(0x7ff0_0000_0000_0000) && !positive(0x7ff0_0000_0000_0000),
        !finite(0xfff0_0000_0000_0000) && !positive(0xfff0_0000_0000_0000),
{
}

/// What the bits of a double say: above those of infinity they are a NaN, below them they are a
/// finite value, and those with the sign bit are the negated value of those without.
pub proof fn bits_tell_what_a_double_is(bits: u64)
    requires
        bits < 0x8000_0000_0000_0000,
    ensures
        finite(bits) <==> bits < 0x7ff0_0000_0000_0000,
        nan(bits) <==> bits > 0x7ff0_0000_0000_0000,
        finite((bits + 0x8000_0000_0000_0000) as u64) == finite(bits),
        nan((bits + 0x8000_0000_0000_0000) as u64) == nan(bits),
        units((bits + 0x8000_0000_0000_0000) as u64) == -units(bits),
        positive(bits) <==> 0 < bits < 0x7ff0_0000_0000_0000,
        !positive((bits + 0x8000_0000_0000_0000) as u64),
{
}

/// The value of a double by its fields, in units of the smallest one: a subnormal counts its
/// fraction, and a normal one doubles with each step of its exponent.
pub proof fn a_double_is_its_fraction_scaled(exponent: int, fraction: int)
    requires
        0 <= exponent < 2047,
        0 <= fraction < 0x10_0000_0000_0000,
    ensures
        exponent == 0 ==> units(fraction as u64) == fraction,
        exponent > 0 ==> units((exponent * 0x10_0000_0000_0000 + fraction) as u64) == (
        0x10_0000_0000_0000 + fraction) * pow2((exponent - 1) as nat),
{
    let bits = (exponent * 0x10_0000_0000_0000 + fraction) as u64;
    assert(magnitude(bits) / exponent_weight() == exponent);
    assert(magnitude(bits) % exponent_weight() == fraction);
    if exponent == 0 {
        assert(magnitude(fraction as u64) == fraction);
    }
}

/// Zero is told as `0`, and as `0.0` in diagnostics; it is neither above nor below itself.
pub proof fn zero_is_told_as_zero(n: Number)
    requires
        n.is_zero(),
    ensures
        n.bits == 0,
        n.display@ == "0"@,
        n.debug@ == "0.0"@,
        units(n.bits) == 0,
        !positive(n.bits),
{
    assert(magnitude_units(0) == 0);
}

} // verus!
