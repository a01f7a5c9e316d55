//! Exact decimal numbers, `mantissa / 10^scale`, in the range that
//! `rust_decimal` can represent: a mantissa of at most 96 bits and at most
//! 28 fractional digits. Rates and amounts are held in this form, and the
//! arithmetic on them is delegated to `rust_decimal`.
use vstd::arithmetic::div_mod::lemma_fundamental_div_mod;
use vstd::prelude::*;

verus! {

/// The largest magnitude a mantissa may have: 2^96 - 1.
pub const MAX_MANTISSA: i128 = 79228162514264337593543950335;

/// The largest number of fractional digits.
pub const MAX_SCALE: u32 = 28;

pub open spec fn pow10(n: nat) -> int
    decreases n,
{
    if n == 0 {
        1
    } else {
        10 * pow10((n - 1) as nat)
    }
}

/// The mathematical content of a [`Decimal`]: the number `mantissa / 10^scale`,
/// kept with its representation.
pub struct DecimalValue {
    pub mantissa: int,
    pub scale: nat,
}

pub open spec fn dv(mantissa: int, scale: nat) -> DecimalValue {
    DecimalValue { mantissa, scale }
}

pub open spec fn abs(x: int) -> int {
    if x < 0 {
        -x
    } else {
        x
    }
}

pub open spec fn in_range(v: DecimalValue) -> bool {
    abs(v.mantissa) <= MAX_MANTISSA && v.scale <= MAX_SCALE
}

/// `a` and `b` denote the same number.
pub open spec fn same_value(a: DecimalValue, b: DecimalValue) -> bool {
    a.mantissa * pow10(b.scale) == b.mantissa * pow10(a.scale)
}

/// `a` denotes a number no larger than `b` does.
pub open spec fn value_le(a: DecimalValue, b: DecimalValue) -> bool {
    a.mantissa * pow10(b.scale) <= b.mantissa * pow10(a.scale)
}

/// The exact product; zero is written with scale 0.
pub open spec fn product(a: DecimalValue, b: DecimalValue) -> DecimalValue {
    if a.mantissa == 0 || b.mantissa == 0 {
        dv(0, 0)
    } else {
        dv(a.mantissa * b.mantissa, a.scale + b.scale)
    }
}

pub open spec fn max_scale(a: DecimalValue, b: DecimalValue) -> nat {
    if a.scale <= b.scale {
        b.scale
    } else {
        a.scale
    }
}

/// The mantissa of `a` written with `scale` fractional digits (`scale >= a.scale`).
pub open spec fn aligned(a: DecimalValue, scale: nat) -> int {
    a.mantissa * pow10((scale - a.scale) as nat)
}

/// The exact sum, written with the larger of the two scales; a zero operand
/// leaves the other one as it is.
pub open spec fn sum(a: DecimalValue, b: DecimalValue) -> DecimalValue {
    if a.mantissa == 0 {
        b
    } else if b.mantissa == 0 {
        a
    } else {
        let s = max_scale(a, b);
        dv(aligned(a, s) + aligned(b, s), s)
    }
}

/// The exact product can be represented.
pub open spec fn product_fits(a: DecimalValue, b: DecimalValue) -> bool {
    in_range(product(a, b))
}

/// Both operands, written at the common scale, and their exact sum can be represented.
pub open spec fn sum_fits(a: DecimalValue, b: DecimalValue) -> bool {
    a.mantissa == 0 || b.mantissa == 0 || {
        let s = max_scale(a, b);
        abs(aligned(a, s)) <= MAX_MANTISSA && abs(aligned(b, s)) <= MAX_MANTISSA && in_range(
            sum(a, b),
        )
    }
}

/// `a` rounded to two fractional digits, half away from zero; a value with at
/// most two fractional digits is left as it is.
pub open spec fn rounded_to_cents(a: DecimalValue) -> DecimalValue {
    if a.scale <= 2 {
        a
    } else {
        let k = (a.scale - 2) as nat;
        let q = (abs(a.mantissa) + 5 * pow10((k - 1) as nat)) / pow10(k);
        dv(
            if a.mantissa < 0 {
                -q
            } else {
                q
            },
            2,
        )
    }
}

/// The whole part of a non-negative value, saturated to the `u32` range;
/// a negative value gives 0.
pub open spec fn truncated_u32(a: DecimalValue) -> u32 {
    if a.mantissa <= 0 {
        0
    } else {
        let w = a.mantissa / pow10(a.scale);
        if w > u32::MAX {
            u32::MAX
        } else {
            w as u32
        }
    }
}

pub proof fn lemma_pow10_positive(n: nat)
    ensures
        pow10(n) > 0,
    decreases n,
{
    if n > 0 {
        lemma_pow10_positive((n - 1) as nat);
    }
}

pub proof fn lemma_pow10_monotonic(m: nat, n: nat)
    requires
        m <= n,
    ensures
        pow10(m) <= pow10(n),
    decreases n,
{
    if m < n {
        lemma_pow10_monotonic(m, (n - 1) as nat);
        lemma_pow10_positive((n - 1) as nat);
    }
}

proof fn lemma_pow10_28()
    ensures
        pow10(28) == 10000000000000000000000000000,
{
    reveal_with_fuel(pow10, 29);
}

/// `10^n` for `n <= 28`.
fn pow10_u128(n: u32) -> (r: u128)
    requires
        n <= MAX_SCALE,
    ensures
        r == pow10(n as nat),
        0 < r <= 10000000000000000000000000000,
{
    let mut r: u128 = 1;
    let mut i: u32 = 0;
    proof {
        lemma_pow10_28();
    }
    while i < n
        invariant
            i <= n <= MAX_SCALE,
            r == pow10(i as nat),
            pow10(28) == 10000000000000000000000000000,
        decreases n - i,
    {
        proof {
            lemma_pow10_monotonic((i + 1) as nat, 28);
        }
        r = r * 10;
        i = i + 1;
    }
    proof {
        lemma_pow10_monotonic(n as nat, 28);
        lemma_pow10_positive(n as nat);
    }
    r
}

/// An exact decimal number `mantissa / 10^scale`.
#[derive(Clone, Copy, Debug)]
pub struct Decimal {
    mantissa: i128,
    scale: u32,
}

impl View for Decimal {
    type V = DecimalValue;

    closed spec fn view(&self) -> DecimalValue {
        dv(self.mantissa as int, self.scale as nat)
    }
}

impl Decimal {
    #[verifier::type_invariant]
    closed spec fn representable(self) -> bool {
        in_range(self@)
    }

    /// The number `mantissa / 10^scale`.
    pub fn new(mantissa: i128, scale: u32) -> (r: Decimal)
        requires
            abs(mantissa as int) <= MAX_MANTISSA,
            scale <= MAX_SCALE,
        ensures
            r@ == dv(mantissa as int, scale as nat),
    {
        Decimal { mantissa, scale }
    }

    /// The number `mantissa / 10^scale`, or `None` where it lies outside the range.
    pub fn try_new(mantissa: i128, scale: u32) -> (r: Option<Decimal>)
        ensures
            r matches Some(d) ==> d@ == dv(mantissa as int, scale as nat),
            r is Some <==> in_range(dv(mantissa as int, scale as nat)),
    {
        if scale <= MAX_SCALE && -MAX_MANTISSA <= mantissa && mantissa <= MAX_MANTISSA {
            Some(Decimal { mantissa, scale })
        } else {
            None
        }
    }

    /// Zero, written without fractional digits.
    pub fn zero() -> (r: Decimal)
        ensures
            r@ == dv(0, 0),
    {
        Decimal { mantissa: 0, scale: 0 }
    }

    pub fn mantissa(&self) -> (r: i128)
        ensures
            r == self@.mantissa,
    {
        self.mantissa
    }

    pub fn scale(&self) -> (r: u32)
        ensures
            r == self@.scale,
    {
        self.scale
    }

    /// The magnitude of the mantissa.
    fn magnitude(&self) -> (r: u128)
        ensures
            r == abs(self@.mantissa),
            r <= MAX_MANTISSA,
    {
        proof {
            use_type_invariant(self);
        }
        if self.mantissa < 0 {
            (-self.mantissa) as u128
        } else {
            self.mantissa as u128
        }
    }

    /// Whether `self` and `other` denote the same number.
    pub fn same_value(&self, other: &Decimal) -> (r: bool)
        ensures
            r == same_value(self@, other@),
    {
        proof {
            use_type_invariant(self);
            use_type_invariant(other);
        }
        if self.scale <= other.scale {
            let p = pow10_u128(other.scale - self.scale);
            proof {
                lemma_same_value_aligned(self@, other@);
            }
            check_multiple(self.mantissa, p, other.mantissa)
        } else {
            let p = pow10_u128(self.scale - other.scale);
            proof {
                lemma_same_value_aligned(other@, self@);
            }
            check_multiple(other.mantissa, p, self.mantissa)
        }
    }

    /// The whole part of `self`, saturated to `u32`; negative values give 0.
    pub fn truncate_to_u32(&self) -> (r: u32)
        ensures
            r == truncated_u32(self@),
    {
        proof {
            use_type_invariant(self);
        }
        if self.mantissa <= 0 {
            return 0;
        }
        let p = pow10_u128(self.scale);
        let w = (self.mantissa as u128) / p;
        if w > u32::MAX as u128 {
            u32::MAX
        } else {
            w as u32
        }
    }

    /// Whether `self * other` is exactly representable.
    pub fn product_fits(&self, other: &Decimal) -> (r: bool)
        ensures
            r == product_fits(self@, other@),
    {
        proof {
            use_type_invariant(self);
            use_type_invariant(other);
        }
        if self.mantissa == 0 || other.mantissa == 0 {
            return true;
        }
        if self.scale + other.scale > MAX_SCALE {
            return false;
        }
        let a = self.magnitude();
        let b = other.magnitude();
        proof {
            assert(abs(self@.mantissa * other@.mantissa) == a * b) by (nonlinear_arith)
                requires
                    a == abs(self@.mantissa),
                    b == abs(other@.mantissa),
            ;
        }
        match a.checked_mul(b) {
            Some(m) => m <= MAX_MANTISSA as u128,
            None => false,
        }
    }

    /// Whether `self + other` is exactly representable, with both operands
    /// written at the common scale.
    pub fn sum_fits(&self, other: &Decimal) -> (r: bool)
        ensures
            r == sum_fits(self@, other@),
    {
        proof {
            use_type_invariant(self);
            use_type_invariant(other);
        }
        if self.mantissa == 0 || other.mantissa == 0 {
            return true;
        }
        let s = if self.scale <= other.scale {
            other.scale
        } else {
            self.scale
        };
        let pa = pow10_u128(s - self.scale) as i128;
        let pb = pow10_u128(s - other.scale) as i128;
        let a = match self.mantissa.checked_mul(pa) {
            Some(a) => a,
            None => {
                return false;
            },
        };
        let b = match other.mantissa.checked_mul(pb) {
            Some(b) => b,
            None => {
                return false;
            },
        };
        if a < -MAX_MANTISSA || a > MAX_MANTISSA || b < -MAX_MANTISSA || b > MAX_MANTISSA {
            return false;
        }
        let t = a + b;
        -MAX_MANTISSA <= t && t <= MAX_MANTISSA
    }

    /// The exact product `self * other`.
    pub fn mul(&self, other: &Decimal) -> (r: Decimal)
        requires
            product_fits(self@, other@),
        ensures
            r@ == product(self@, other@),
    {
        proof {
            use_type_invariant(self);
            use_type_invariant(other);
        }
        decimal_mul(self.mantissa, self.scale, other.mantissa, other.scale)
    }

    /// The exact sum `self + other`.
    pub fn add(&self, other: &Decimal) -> (r: Decimal)
        requires
            sum_fits(self@, other@),
        ensures
            r@ == sum(self@, other@),
    {
        proof {
            use_type_invariant(self);
            use_type_invariant(other);
        }
        decimal_add(self.mantissa, self.scale, other.mantissa, other.scale)
    }

    /// `self` rounded to two fractional digits, half away from zero.
    pub fn round_to_cents(&self) -> (r: Decimal)
        ensures
            r@ == rounded_to_cents(self@),
    {
        proof {
            use_type_invariant(self);
        }
        decimal_round_cents(self.mantissa, self.scale)
    }
}

/// `x * p == y` exactly when `p` divides `y` with quotient `x`.
fn check_multiple(x: i128, p: u128, y: i128) -> (r: bool)
    requires
        abs(x as int) <= MAX_MANTISSA,
        abs(y as int) <= MAX_MANTISSA,
        0 < p <= 10000000000000000000000000000,
    ensures
        r == (x * p == y),
{
    let neg_x = x < 0;
    let neg_y = y < 0;
    let ux: u128 = if neg_x {
        (-x) as u128
    } else {
        x as u128
    };
    let uy: u128 = if neg_y {
        (-y) as u128
    } else {
        y as u128
    };
    proof {
        lemma_fundamental_div_mod(uy as int, p as int);
    }
    if x == 0 || y == 0 {
        proof {
            assert((x * p == y) == (x == 0 && y == 0)) by (nonlinear_arith)
                requires
                    p > 0,
                    x == 0 || y == 0,
            ;
        }
        return x == 0 && y == 0;
    }
    if neg_x != neg_y {
        proof {
            assert(x * p != y) by (nonlinear_arith)
                requires
                    p > 0,
                    x != 0,
                    y != 0,
                    (x < 0) != (y < 0),
            ;
        }
        return false;
    }
    let q = uy / p;
    let m = uy % p;
    proof {
        assert((ux * p == uy) == (m == 0 && q == ux)) by (nonlinear_arith)
            requires
                uy == p * q + m,
                0 <= m < p,
                p > 0,
        ;
        assert((x * p == y) == (ux * p == uy)) by (nonlinear_arith)
            requires
                ux == abs(x as int),
                uy == abs(y as int),
                (x < 0) == (y < 0),
        ;
    }
    m == 0 && q == ux
}

proof fn lemma_same_value_aligned(a: DecimalValue, b: DecimalValue)
    requires
        a.scale <= b.scale,
    ensures
        same_value(a, b) == (a.mantissa * pow10((b.scale - a.scale) as nat) == b.mantissa),
{
    lemma_pow10_split(a.scale, (b.scale - a.scale) as nat);
    lemma_pow10_positive(a.scale);
    let d = pow10((b.scale - a.scale) as nat);
    let pa = pow10(a.scale);
    assert((a.mantissa * (pa * d) == b.mantissa * pa) == (a.mantissa * d == b.mantissa))
        by (nonlinear_arith)
        requires
            pa > 0,
    ;
}

pub proof fn lemma_pow10_split(m: nat, n: nat)
    ensures
        pow10(m + n) == pow10(m) * pow10(n),
    decreases n,
{
    if n > 0 {
        lemma_pow10_split(m, (n - 1) as nat);
        assert(pow10(m + n) == 10 * pow10((m + n - 1) as nat));
        assert(pow10(m) * pow10(n) == pow10(m) * (10 * pow10((n - 1) as nat)));
        assert(pow10(m) * (10 * pow10((n - 1) as nat)) == 10 * (pow10(m) * pow10(
            (n - 1) as nat,
        ))) by (nonlinear_arith);
    }
}

/// Relies on `rust_decimal::Decimal::from_i128_with_scale` (which panics only
/// outside the range required here), on `Mul for rust_decimal::Decimal` and on
/// `mantissa` / `scale`: where the exact product has at most 96 bits and 28
/// fractional digits it is returned as it is, with the two scales added; a zero
/// operand gives zero with scale 0.
#[verifier::external_body]
fn decimal_mul(am: i128, ascale: u32, bm: i128, bscale: u32) -> (r: Decimal)
    requires
        in_range(dv(am as int, ascale as nat)),
        in_range(dv(bm as int, bscale as nat)),
        product_fits(dv(am as int, ascale as nat), dv(bm as int, bscale as nat)),
    ensures
        r@ == product(dv(am as int, ascale as nat), dv(bm as int, bscale as nat)),
{
    let a = rust_decimal::Decimal::from_i128_with_scale(am, ascale);
    let b = rust_decimal::Decimal::from_i128_with_scale(bm, bscale);
    let p = a * b;
    Decimal { mantissa: p.mantissa(), scale: p.scale() }
}

/// Relies on `rust_decimal::Decimal::from_i128_with_scale` and on
/// `Add for rust_decimal::Decimal`: a zero operand leaves the other one as it
/// is; otherwise the operand with fewer fractional digits is scaled up, and
/// where both scaled operands and their sum fit in 96 bits the exact sum is
/// returned at the larger scale.
#[verifier::external_body]
fn decimal_add(am: i128, ascale: u32, bm: i128, bscale: u32) -> (r: Decimal)
    requires
        in_range(dv(am as int, ascale as nat)),
        in_range(dv(bm as int, bscale as nat)),
        sum_fits(dv(am as int, ascale as nat), dv(bm as int, bscale as nat)),
    ensures
        r@ == sum(dv(am as int, ascale as nat), dv(bm as int, bscale as nat)),
{
    let a = rust_decimal::Decimal::from_i128_with_scale(am, ascale);
    let b = rust_decimal::Decimal::from_i128_with_scale(bm, bscale);
    let s = a + b;
    Decimal { mantissa: s.mantissa(), scale: s.scale() }
}

/// Relies on `rust_decimal::Decimal::round_dp_with_strategy` with
/// `MidpointAwayFromZero` and 2 places: a value with at most two fractional
/// digits is returned as it is; otherwise the magnitude is divided by the
/// dropped power of ten, rounded half away from zero, at scale 2.
#[verifier::external_body]
fn decimal_round_cents(am: i128, ascale: u32) -> (r: Decimal)
    requires
        in_range(dv(am as int, ascale as nat)),
    ensures
        r@ == rounded_to_cents(dv(am as int, ascale as nat)),
{
    let a = rust_decimal::Decimal::from_i128_with_scale(am, ascale);
    let r = a.round_dp_with_strategy(2, rust_decimal::RoundingStrategy::MidpointAwayFromZero);
    Decimal { mantissa: r.mantissa(), scale: r.scale() }
}

impl PartialEq for Decimal {
    fn eq(&self, other: &Decimal) -> (r: bool)
        ensures
            r == same_value(self@, other@),
    {
        self.same_value(other)
    }
}

impl vstd::std_specs::cmp::PartialEqSpecImpl for Decimal {
    open spec fn obeys_eq_spec() -> bool {
        true
    }

    open spec fn eq_spec(&self, other: &Decimal) -> bool {
        same_value(self@, other@)
    }
}

} // verus!
