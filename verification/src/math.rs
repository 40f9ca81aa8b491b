//! Checked integer arithmetic and fixed-point decimal conversions.
use crate::errors::{math_overflow, overflow, Error};
use vstd::arithmetic::div_mod::lemma_basic_div;
use vstd::arithmetic::power::{lemma0_pow, lemma1_pow, lemma_pow0, lemma_pow_increases, lemma_pow_positive, pow};
use vstd::prelude::*;

verus! {

/// Whether the mathematical integer `v` is a value of the integer type `T`.
pub open spec fn fits<T: CheckedInt>(v: int) -> bool {
    T::spec_min() <= v <= T::spec_max()
}

/// Integer division rounded toward zero, as Rust's `/` computes it.
pub open spec fn trunc_div(a: int, b: int) -> int {
    if a >= 0 && b > 0 {
        a / b
    } else if a < 0 && b < 0 {
        (-a) / (-b)
    } else if a < 0 {
        -((-a) / b)
    } else {
        -(a / (-b))
    }
}

/// `Ok(v)` for a value, the overflow error for none.
pub open spec fn or_overflow<T>(o: Option<T>) -> Result<T, Error> {
    match o {
        Some(v) => Ok(v),
        None => Err(overflow()),
    }
}

/// A primitive integer type whose arithmetic can be checked against overflow.
pub trait CheckedInt: Sized + Copy {
    /// The mathematical value of `self`.
    spec fn spec_val(self) -> int;

    /// The least value of the type.
    spec fn spec_min() -> int;

    /// The greatest value of the type.
    spec fn spec_max() -> int;

    proof fn lemma_bounds(self)
        ensures
            Self::spec_min() <= self.spec_val() <= Self::spec_max(),
            Self::spec_min() <= 0,
            255 < Self::spec_max(),
    ;

    fn from_small(v: u8) -> (r: Self)
        ensures
            r.spec_val() == v as int,
    ;

    fn is_positive(&self) -> (b: bool)
        ensures
            b == (self.spec_val() > 0),
    ;

    fn same_value(&self, other: &Self) -> (b: bool)
        ensures
            b == (self.spec_val() == other.spec_val()),
    ;

    fn add_checked(self, other: Self) -> (r: Option<Self>)
        ensures
            r is Some <==> Self::spec_min() <= self.spec_val() + other.spec_val() <= Self::spec_max(),
            r matches Some(v) ==> v.spec_val() == self.spec_val() + other.spec_val(),
    ;

    fn sub_checked(self, other: Self) -> (r: Option<Self>)
        ensures
            r is Some <==> Self::spec_min() <= self.spec_val() - other.spec_val() <= Self::spec_max(),
            r matches Some(v) ==> v.spec_val() == self.spec_val() - other.spec_val(),
    ;

    fn mul_checked(self, other: Self) -> (r: Option<Self>)
        ensures
            r is Some <==> Self::spec_min() <= self.spec_val() * other.spec_val() <= Self::spec_max(),
            r matches Some(v) ==> v.spec_val() == self.spec_val() * other.spec_val(),
    ;

    fn div_checked(self, other: Self) -> (r: Option<Self>)
        ensures
            r is Some <==> other.spec_val() != 0 && Self::spec_min() <= trunc_div(
                self.spec_val(),
                other.spec_val(),
            ) <= Self::spec_max(),
            r matches Some(v) ==> v.spec_val() == trunc_div(self.spec_val(), other.spec_val()),
    ;

    fn to_u64_checked(self) -> (r: Option<u64>)
        ensures
            r is Some <==> 0 <= self.spec_val() <= u64::MAX,
            r matches Some(v) ==> v as int == self.spec_val(),
    ;

    fn to_i64_checked(self) -> (r: Option<i64>)
        ensures
            r is Some <==> i64::MIN <= self.spec_val() <= i64::MAX,
            r matches Some(v) ==> v as int == self.spec_val(),
    ;
}

/// A primitive integer type without negative values.
pub trait CheckedUnsigned: CheckedInt {
    proof fn lemma_unsigned()
        ensures
            Self::spec_min() == 0,
    ;
}

impl CheckedInt for i32 {
    open spec fn spec_val(self) -> int {
        self as int
    }

    open spec fn spec_min() -> int {
        i32::MIN as int
    }

    open spec fn spec_max() -> int {
        i32::MAX as int
    }

    proof fn lemma_bounds(self) {
    }

    fn from_small(v: u8) -> (r: Self) {
        v as i32
    }

    fn is_positive(&self) -> (b: bool) {
        *self > 0
    }

    fn same_value(&self, other: &Self) -> (b: bool) {
        *self == *other
    }

    fn add_checked(self, other: Self) -> (r: Option<Self>) {
        self.checked_add(other)
    }

    fn sub_checked(self, other: Self) -> (r: Option<Self>) {
        self.checked_sub(other)
    }

    fn mul_checked(self, other: Self) -> (r: Option<Self>) {
        self.checked_mul(other)
    }

    fn div_checked(self, other: Self) -> (r: Option<Self>) {
        self.checked_div(other)
    }

    fn to_u64_checked(self) -> (r: Option<u64>) {
        if self < 0 {
            None
        } else if (self as i128) <= (u64::MAX as i128) {
            Some(self as u64)
        } else {
            None
        }
    }

    fn to_i64_checked(self) -> (r: Option<i64>) {
        if (self as i128) < (i64::MIN as i128) || (self as i128) > (i64::MAX as i128) {
            None
        } else {
            Some(self as i64)
        }
    }
}

impl CheckedInt for i64 {
    open spec fn spec_val(self) -> int {
        self as int
    }

    open spec fn spec_min() -> int {
        i64::MIN as int
    }

    open spec fn spec_max() -> int {
        i64::MAX as int
    }

    proof fn lemma_bounds(self) {
    }

    fn from_small(v: u8) -> (r: Self) {
        v as i64
    }

    fn is_positive(&self) -> (b: bool) {
        *self > 0
    }

    fn same_value(&self, other: &Self) -> (b: bool) {
        *self == *other
    }

    fn add_checked(self, other: Self) -> (r: Option<Self>) {
        self.checked_add(other)
    }

    fn sub_checked(self, other: Self) -> (r: Option<Self>) {
        self.checked_sub(other)
    }

    fn mul_checked(self, other: Self) -> (r: Option<Self>) {
        self.checked_mul(other)
    }

    fn div_checked(self, other: Self) -> (r: Option<Self>) {
        self.checked_div(other)
    }

    fn to_u64_checked(self) -> (r: Option<u64>) {
        if self < 0 {
            None
        } else if (self as i128) <= (u64::MAX as i128) {
            Some(self as u64)
        } else {
            None
        }
    }

    fn to_i64_checked(self) -> (r: Option<i64>) {
        if (self as i128) < (i64::MIN as i128) || (self as i128) > (i64::MAX as i128) {
            None
        } else {
            Some(self as i64)
        }
    }
}

impl CheckedInt for i128 {
    open spec fn spec_val(self) -> int {
        self as int
    }

    open spec fn spec_min() -> int {
        i128::MIN as int
    }

    open spec fn spec_max() -> int {
        i128::MAX as int
    }

    proof fn lemma_bounds(self) {
    }

    fn from_small(v: u8) -> (r: Self) {
        v as i128
    }

    fn is_positive(&self) -> (b: bool) {
        *self > 0
    }

    fn same_value(&self, other: &Self) -> (b: bool) {
        *self == *other
    }

    fn add_checked(self, other: Self) -> (r: Option<Self>) {
        self.checked_add(other)
    }

    fn sub_checked(self, other: Self) -> (r: Option<Self>) {
        self.checked_sub(other)
    }

    fn mul_checked(self, other: Self) -> (r: Option<Self>) {
        self.checked_mul(other)
    }

    fn div_checked(self, other: Self) -> (r: Option<Self>) {
        self.checked_div(other)
    }

    fn to_u64_checked(self) -> (r: Option<u64>) {
        if self < 0 {
            None
        } else if (self as i128) <= (u64::MAX as i128) {
            Some(self as u64)
        } else {
            None
        }
    }

    fn to_i64_checked(self) -> (r: Option<i64>) {
        if (self as i128) < (i64::MIN as i128) || (self as i128) > (i64::MAX as i128) {
            None
        } else {
            Some(self as i64)
        }
    }
}

impl CheckedInt for u64 {
    open spec fn spec_val(self) -> int {
        self as int
    }

    open spec fn spec_min() -> int {
        u64::MIN as int
    }

    open spec fn spec_max() -> int {
        u64::MAX as int
    }

    proof fn lemma_bounds(self) {
    }

    fn from_small(v: u8) -> (r: Self) {
        v as u64
    }

    fn is_positive(&self) -> (b: bool) {
        *self > 0
    }

    fn same_value(&self, other: &Self) -> (b: bool) {
        *self == *other
    }

    fn add_checked(self, other: Self) -> (r: Option<Self>) {
        self.checked_add(other)
    }

    fn sub_checked(self, other: Self) -> (r: Option<Self>) {
        self.checked_sub(other)
    }

    fn mul_checked(self, other: Self) -> (r: Option<Self>) {
        self.checked_mul(other)
    }

    fn div_checked(self, other: Self) -> (r: Option<Self>) {
        self.checked_div(other)
    }

    fn to_u64_checked(self) -> (r: Option<u64>) {
        if (self as u128) <= (u64::MAX as u128) {
            Some(self as u64)
        } else {
            None
        }
    }

    fn to_i64_checked(self) -> (r: Option<i64>) {
        if (self as u128) <= (i64::MAX as u128) {
            Some(self as i64)
        } else {
            None
        }
    }
}

impl CheckedInt for u128 {
    open spec fn spec_val(self) -> int {
        self as int
    }

    open spec fn spec_min() -> int {
        u128::MIN as int
    }

    open spec fn spec_max() -> int {
        u128::MAX as int
    }

    proof fn lemma_bounds(self) {
    }

    fn from_small(v: u8) -> (r: Self) {
        v as u128
    }

    fn is_positive(&self) -> (b: bool) {
        *self > 0
    }

    fn same_value(&self, other: &Self) -> (b: bool) {
        *self == *other
    }

    fn add_checked(self, other: Self) -> (r: Option<Self>) {
        self.checked_add(other)
    }

    fn sub_checked(self, other: Self) -> (r: Option<Self>) {
        self.checked_sub(other)
    }

    fn mul_checked(self, other: Self) -> (r: Option<Self>) {
        self.checked_mul(other)
    }

    fn div_checked(self, other: Self) -> (r: Option<Self>) {
        self.checked_div(other)
    }

    fn to_u64_checked(self) -> (r: Option<u64>) {
        if (self as u128) <= (u64::MAX as u128) {
            Some(self as u64)
        } else {
            None
        }
    }

    fn to_i64_checked(self) -> (r: Option<i64>) {
        if (self as u128) <= (i64::MAX as u128) {
            Some(self as i64)
        } else {
            None
        }
    }
}

impl CheckedUnsigned for u64 {
    proof fn lemma_unsigned() {
    }
}

impl CheckedUnsigned for u128 {
    proof fn lemma_unsigned() {
    }
}


/// The sum, or the overflow error where it leaves the type.
pub fn checked_add<T: CheckedInt>(arg1: T, arg2: T) -> (r: Result<T, Error>)
    ensures
        r is Ok <==> fits::<T>(arg1.spec_val() + arg2.spec_val()),
        r matches Ok(v) ==> v.spec_val() == arg1.spec_val() + arg2.spec_val(),
        r matches Err(e) ==> e == overflow(),
{
    match arg1.add_checked(arg2) {
        Some(res) => Ok(res),
        None => Err(math_overflow()),
    }
}

/// The difference, or the overflow error where it leaves the type.
pub fn checked_sub<T: CheckedInt>(arg1: T, arg2: T) -> (r: Result<T, Error>)
    ensures
        r is Ok <==> fits::<T>(arg1.spec_val() - arg2.spec_val()),
        r matches Ok(v) ==> v.spec_val() == arg1.spec_val() - arg2.spec_val(),
        r matches Err(e) ==> e == overflow(),
{
    match arg1.sub_checked(arg2) {
        Some(res) => Ok(res),
        None => Err(math_overflow()),
    }
}

/// The quotient rounded toward zero; the overflow error for a zero divisor or a
/// quotient outside the type.
pub fn checked_div<T: CheckedInt>(arg1: T, arg2: T) -> (r: Result<T, Error>)
    ensures
        r is Ok <==> arg2.spec_val() != 0 && fits::<T>(trunc_div(arg1.spec_val(), arg2.spec_val())),
        r matches Ok(v) ==> v.spec_val() == trunc_div(arg1.spec_val(), arg2.spec_val()),
        r matches Err(e) ==> e == overflow(),
{
    match arg1.div_checked(arg2) {
        Some(res) => Ok(res),
        None => Err(math_overflow()),
    }
}

/// The product, or the overflow error where it leaves the type.
pub fn checked_mul<T: CheckedInt>(arg1: T, arg2: T) -> (r: Result<T, Error>)
    ensures
        r is Ok <==> fits::<T>(arg1.spec_val() * arg2.spec_val()),
        r matches Ok(v) ==> v.spec_val() == arg1.spec_val() * arg2.spec_val(),
        r matches Err(e) ==> e == overflow(),
{
    match arg1.mul_checked(arg2) {
        Some(res) => Ok(res),
        None => Err(math_overflow()),
    }
}

/// The value as a `u64`, or the overflow error where it is not one.
pub fn checked_as_u64<T: CheckedInt>(arg: T) -> (r: Result<u64, Error>)
    ensures
        r is Ok <==> 0 <= arg.spec_val() <= u64::MAX,
        r matches Ok(v) ==> v as int == arg.spec_val(),
        r matches Err(e) ==> e == overflow(),
{
    match arg.to_u64_checked() {
        Some(res) => Ok(res),
        None => Err(math_overflow()),
    }
}

/// The value as an `i64`, or the overflow error where it is not one.
pub fn checked_as_i64<T: CheckedInt>(arg: T) -> (r: Result<i64, Error>)
    ensures
        r is Ok <==> i64::MIN <= arg.spec_val() <= i64::MAX,
        r matches Ok(v) ==> v as int == arg.spec_val(),
        r matches Err(e) ==> e == overflow(),
{
    match arg.to_i64_checked() {
        Some(res) => Ok(res),
        None => Err(math_overflow()),
    }
}

/// `arg` raised to `exp`, or the overflow error where the power leaves the type.
pub fn checked_pow<T: CheckedUnsigned>(arg: T, exp: usize) -> (r: Result<T, Error>)
    ensures
        r is Ok <==> pow(arg.spec_val(), exp as nat) <= T::spec_max(),
        r matches Ok(v) ==> v.spec_val() == pow(arg.spec_val(), exp as nat),
        r matches Err(e) ==> e == overflow(),
{
    proof {
        T::lemma_unsigned();
        arg.lemma_bounds();
    }
    let one = T::from_small(1);
    if !arg.is_positive() {
        if exp == 0 {
            proof {
                lemma_pow0(arg.spec_val());
            }
            return Ok(one);
        } else {
            proof {
                lemma0_pow(exp as nat);
            }
            return Ok(arg);
        }
    }
    if arg.same_value(&one) {
        proof {
            lemma1_pow(exp as nat);
        }
        return Ok(one);
    }
    let ghost b = arg.spec_val();
    let mut acc = one;
    let mut i: usize = 0;
    proof {
        lemma_pow0(b);
    }
    while i < exp
        invariant
            b == arg.spec_val(),
            b >= 2,
            0 <= i <= exp,
            acc.spec_val() == pow(b, i as nat),
            T::spec_min() == 0,
        decreases exp - i,
    {
        match acc.mul_checked(arg) {
            Some(next) => {
                acc = next;
            },
            None => {
                proof {
                    reveal(pow);
                    lemma_pow_positive(b, i as nat);
                    assert(acc.spec_val() * b >= 0) by (nonlinear_arith)
                        requires
                            acc.spec_val() > 0,
                            b >= 2,
                    ;
                    assert(pow(b, (i + 1) as nat) == b * pow(b, i as nat));
                    assert(pow(b, (i + 1) as nat) > T::spec_max());
                    lemma_pow_increases(b as nat, (i + 1) as nat, exp as nat);
                }
                return Err(math_overflow());
            },
        }
        proof {
            reveal(pow);
            assert(pow(b, (i + 1) as nat) == b * pow(b, i as nat));
        }
        i = i + 1;
    }
    proof {
        acc.lemma_bounds();
    }
    Ok(acc)
}

/// Division rounded up: the least `q` with `q * b >= a`, for `b > 0`.
pub open spec fn ceil_div(a: nat, b: nat) -> nat
    recommends
        b > 0,
{
    if a == 0 {
        0
    } else {
        ((a - 1) as nat / b + 1) as nat
    }
}

/// The quotient rounded up, or the overflow error for a zero divisor.
pub fn checked_ceil_div<T: CheckedUnsigned>(arg1: T, arg2: T) -> (r: Result<T, Error>)
    ensures
        r is Ok <==> arg2.spec_val() != 0,
        r matches Ok(v) ==> v.spec_val() == ceil_div(arg1.spec_val() as nat, arg2.spec_val() as nat),
        r matches Err(e) ==> e == overflow(),
{
    proof {
        T::lemma_unsigned();
        arg1.lemma_bounds();
        arg2.lemma_bounds();
    }
    let one = T::from_small(1);
    if arg1.is_positive() {
        if arg1.same_value(&arg2) && arg2.is_positive() {
            proof {
                lemma_basic_div(arg1.spec_val() - 1, arg1.spec_val());
            }
            return Ok(one);
        }
        let less = match arg1.sub_checked(one) {
            Some(v) => v,
            None => {
                return Err(math_overflow());
            },
        };
        match less.div_checked(arg2) {
            Some(res) => {
                proof {
                    assert(res.spec_val() <= less.spec_val()) by (nonlinear_arith)
                        requires
                            res.spec_val() == less.spec_val() / arg2.spec_val(),
                            less.spec_val() >= 0,
                            arg2.spec_val() > 0,
                    ;
                }
                match res.add_checked(one) {
                    Some(up) => Ok(up),
                    None => Err(math_overflow()),
                }
            },
            None => Err(math_overflow()),
        }
    } else {
        match arg1.div_checked(arg2) {
            Some(res) => Ok(res),
            None => Err(math_overflow()),
        }
    }
}

/// Whether `v` is a value of `i32`.
pub open spec fn fits_i32(v: int) -> bool {
    i32::MIN <= v <= i32::MAX
}

/// `10` raised to `e`.
pub open spec fn pow10(e: int) -> int
    recommends
        e >= 0,
{
    pow(10, e as nat)
}

/// The product of `coefficient1 * 10^exponent1` and `coefficient2 * 10^exponent2`,
/// written as a coefficient of `10^target_exponent`, rounded down (or up, where
/// `round_up`); none where an exponent leaves `i32` or a value leaves its type.
pub open spec fn decimal_mul_value(
    coefficient1: u64,
    exponent1: i32,
    coefficient2: u64,
    exponent2: i32,
    target_exponent: i32,
    round_up: bool,
) -> Option<u64> {
    if coefficient1 == 0 || coefficient2 == 0 {
        Some(0)
    } else if !fits_i32(exponent1 + exponent2) || !fits_i32(
        exponent1 + exponent2 - target_exponent,
    ) {
        None
    } else {
        scaled_product_value(
            coefficient1 * coefficient2,
            exponent1 + exponent2 - target_exponent,
            round_up,
        )
    }
}

/// `product * 10^target_power` for a non-negative power, `product / 10^-target_power`
/// (rounded down, or up where `round_up`) for a negative one, as a `u64`; none where
/// the power of ten leaves `u128` or the result leaves `u64`.
pub open spec fn scaled_product_value(product: int, target_power: int, round_up: bool) -> Option<
    u64,
> {
    if target_power >= 0 {
        let v = product * pow10(target_power);
        if pow10(target_power) <= u128::MAX && v <= u64::MAX {
            Some(v as u64)
        } else {
            None
        }
    } else if pow10(-target_power) > u128::MAX {
        None
    } else {
        let v = if round_up {
            ceil_div(product as nat, pow10(-target_power) as nat) as int
        } else {
            product / pow10(-target_power)
        };
        if v <= u64::MAX {
            Some(v as u64)
        } else {
            None
        }
    }
}

proof fn lemma_pow10_positive(e: int)
    requires
        e >= 0,
    ensures
        pow10(e) >= 1,
{
    lemma_pow_positive(10, e as nat);
}

proof fn lemma_mul_at_least(x: int, y: int)
    requires
        x >= 1,
        y >= 0,
    ensures
        x * y >= y,
{
    assert(x * y >= y) by (nonlinear_arith)
        requires
            x >= 1,
            y >= 0,
    ;
}

proof fn lemma_u64_product_fits(a: u64, b: u64)
    ensures
        0 <= (a as int) * (b as int) <= u128::MAX,
{
    assert(0 <= (a as int) * (b as int) <= u128::MAX) by (nonlinear_arith)
        requires
            0 <= a <= u64::MAX,
            0 <= b <= u64::MAX,
    ;
}

/// Scales `product` by `10^target_power`: multiplies for a non-negative power,
/// divides (rounding down, or up where `round_up`) for a negative one.
pub fn scale_product(product: u128, target_power: i32, round_up: bool) -> (r: Result<u64, Error>)
    ensures
        r == or_overflow(scaled_product_value(product as int, target_power as int, round_up)),
{
    if target_power >= 0 {
        let p = checked_pow(10u128, target_power as usize)?;
        let v = checked_mul(product, p)?;
        proof {
            lemma_pow10_positive(target_power as int);
        }
        checked_as_u64(v)
    } else {
        let neg: i64 = -(target_power as i64);
        let p = checked_pow(10u128, neg as usize)?;
        proof {
            lemma_pow10_positive(-target_power);
        }
        let v = if round_up {
            checked_ceil_div(product, p)?
        } else {
            checked_div(product, p)?
        };
        checked_as_u64(v)
    }
}

/// Multiplies two decimals `coefficient * 10^exponent` and writes the product with
/// `target_exponent`, rounding down.
pub fn checked_decimal_mul(
    coefficient1: u64,
    exponent1: i32,
    coefficient2: u64,
    exponent2: i32,
    target_exponent: i32,
) -> (r: Result<u64, Error>)
    ensures
        r == or_overflow(
            decimal_mul_value(coefficient1, exponent1, coefficient2, exponent2, target_exponent, false),
        ),
{
    if coefficient1 == 0 || coefficient2 == 0 {
        return Ok(0);
    }
    let target_power = checked_sub(checked_add(exponent1, exponent2)?, target_exponent)?;
    proof {
        lemma_u64_product_fits(coefficient1, coefficient2);
    }
    let product = checked_mul(coefficient1 as u128, coefficient2 as u128)?;
    scale_product(product, target_power, false)
}

/// Multiplies two decimals `coefficient * 10^exponent` and writes the product with
/// `target_exponent`, rounding up.
pub fn checked_decimal_ceil_mul(
    coefficient1: u64,
    exponent1: i32,
    coefficient2: u64,
    exponent2: i32,
    target_exponent: i32,
) -> (r: Result<u64, Error>)
    ensures
        r == or_overflow(
            decimal_mul_value(coefficient1, exponent1, coefficient2, exponent2, target_exponent, true),
        ),
{
    if coefficient1 == 0 || coefficient2 == 0 {
        return Ok(0);
    }
    let target_power = checked_sub(checked_add(exponent1, exponent2)?, target_exponent)?;
    proof {
        lemma_u64_product_fits(coefficient1, coefficient2);
    }
    let product = checked_mul(coefficient1 as u128, coefficient2 as u128)?;
    scale_product(product, target_power, true)
}

/// The quotient of `coefficient1 * 10^exponent1` by `coefficient2 * 10^exponent2`,
/// written as a coefficient of `10^target_exponent` and rounded down. The dividend is
/// first scaled up by `10^scale` where `scale` collects the positive `exponent1` and
/// the negated negative `exponent2` and `target_exponent`, so that the integer
/// division keeps those digits; the rest of the power is applied after it. None for
/// a zero divisor, and where an exponent leaves `i32` or a value leaves its type.
pub open spec fn decimal_div_value(
    coefficient1: u64,
    exponent1: i32,
    coefficient2: u64,
    exponent2: i32,
    target_exponent: i32,
) -> Option<u64> {
    let e1 = exponent1 as int;
    let e2 = exponent2 as int;
    let t = target_exponent as int;
    if coefficient2 == 0 {
        None
    } else if coefficient1 == 0 {
        Some(0)
    } else if !fits_i32(e1 - e2) || !fits_i32(e1 - e2 - t) {
        None
    } else {
        let scale0: int = if e1 > 0 {
            e1
        } else {
            0
        };
        let scale1 = if e2 < 0 {
            scale0 - e2
        } else {
            scale0
        };
        let power1 = if e2 < 0 {
            e1 - e2 - t + e2
        } else {
            e1 - e2 - t
        };
        let scale2 = if t < 0 {
            scale1 - t
        } else {
            scale1
        };
        let power2 = if t < 0 {
            power1 + t
        } else {
            power1
        };
        if e2 < 0 && (!fits_i32(scale1) || !fits_i32(power1)) {
            None
        } else if t < 0 && (!fits_i32(scale2) || !fits_i32(power2)) {
            None
        } else if scale2 > 0 && coefficient1 * pow10(scale2) > u128::MAX {
            None
        } else {
            let scaled = if scale2 > 0 {
                coefficient1 * pow10(scale2)
            } else {
                coefficient1 as int
            };
            scaled_product_value(scaled / (coefficient2 as int), power2, false)
        }
    }
}

/// Divides two decimals `coefficient * 10^exponent` and writes the quotient with
/// `target_exponent`, rounding down.
pub fn checked_decimal_div(
    coefficient1: u64,
    exponent1: i32,
    coefficient2: u64,
    exponent2: i32,
    target_exponent: i32,
) -> (r: Result<u64, Error>)
    ensures
        r == or_overflow(
            decimal_div_value(coefficient1, exponent1, coefficient2, exponent2, target_exponent),
        ),
{
    if coefficient2 == 0 {
        return Err(math_overflow());
    }
    if coefficient1 == 0 {
        return Ok(0);
    }
    let mut scale_factor: i32 = 0;
    let mut target_power = checked_sub(checked_sub(exponent1, exponent2)?, target_exponent)?;
    if exponent1 > 0 {
        scale_factor = checked_add(scale_factor, exponent1)?;
    }
    if exponent2 < 0 {
        scale_factor = checked_sub(scale_factor, exponent2)?;
        target_power = checked_add(target_power, exponent2)?;
    }
    if target_exponent < 0 {
        scale_factor = checked_sub(scale_factor, target_exponent)?;
        target_power = checked_add(target_power, target_exponent)?;
    }
    let scaled_coeff1 = if scale_factor > 0 {
        proof {
            lemma_pow10_positive(scale_factor as int);
            lemma_mul_at_least(coefficient1 as int, pow10(scale_factor as int));
        }
        let p = checked_pow(10u128, scale_factor as usize)?;
        checked_mul(coefficient1 as u128, p)?
    } else {
        coefficient1 as u128
    };
    let quotient = checked_div(scaled_coeff1, coefficient2 as u128)?;
    scale_product(quotient, target_power, false)
}

/// `arg * 10^exponent` written as a coefficient of `10^target_exponent`: divided by
/// the power of ten when the target exponent is greater, multiplied otherwise; none
/// where an exponent or a value leaves its type.
pub open spec fn scale_to_exponent_value(arg: u64, exponent: i32, target_exponent: i32) -> Option<
    u64,
> {
    if target_exponent == exponent {
        Some(arg)
    } else if !fits_i32(target_exponent - exponent) {
        None
    } else {
        let delta = target_exponent - exponent;
        if delta > 0 {
            if pow10(delta) > u64::MAX {
                None
            } else {
                Some(((arg as int) / pow10(delta)) as u64)
            }
        } else if pow10(-delta) > u64::MAX || arg * pow10(-delta) > u64::MAX {
            None
        } else {
            Some((arg * pow10(-delta)) as u64)
        }
    }
}

/// Rewrites `arg * 10^exponent` with `target_exponent`.
pub fn scale_to_exponent(arg: u64, exponent: i32, target_exponent: i32) -> (r: Result<u64, Error>)
    ensures
        r == or_overflow(scale_to_exponent_value(arg, exponent, target_exponent)),
{
    if target_exponent == exponent {
        return Ok(arg);
    }
    let delta = checked_sub(target_exponent, exponent)?;
    if delta > 0 {
        let p = checked_pow(10u64, delta as usize)?;
        proof {
            lemma_pow10_positive(delta as int);
        }
        checked_div(arg, p)
    } else {
        let neg: i64 = -(delta as i64);
        let p = checked_pow(10u64, neg as usize)?;
        checked_mul(arg, p)
    }
}

/// Fixed-point scale of prices and ratios: six decimals.
pub const PRICE_SCALE: u64 = 1_000_000;

/// The exponent that goes with `PRICE_SCALE`.
pub const PRICE_DECIMALS: i32 = -6;

/// `1.0` in the fixed-point format.
pub const SCALED_ONE: u64 = 1_000_000;

/// `0.0` in the fixed-point format.
pub const SCALED_ZERO: u64 = 0;

/// `100.0` in the fixed-point format.
pub const SCALED_HUNDRED: u64 = 100_000_000;

/// The product of two fixed-point values, rounded down; none where it leaves `u64`.
pub open spec fn scaled_mul_value(val1: u64, val2: u64) -> Option<u64> {
    let v = (val1 * val2) / (PRICE_SCALE as int);
    if v <= u64::MAX {
        Some(v as u64)
    } else {
        None
    }
}

/// Multiplies two fixed-point values.
pub fn scaled_mul(val1: u64, val2: u64) -> (r: Result<u64, Error>)
    ensures
        r == or_overflow(scaled_mul_value(val1, val2)),
{
    proof {
        lemma_u64_product_fits(val1, val2);
    }
    let result = checked_mul(val1 as u128, val2 as u128)?;
    checked_as_u64(checked_div(result, PRICE_SCALE as u128)?)
}

/// The quotient of two fixed-point values, rounded down; none for a zero
/// denominator or a quotient outside `u64`.
pub open spec fn scaled_div_value(numerator: u64, denominator: u64) -> Option<u64> {
    if denominator == 0 {
        None
    } else {
        let v = (numerator * (PRICE_SCALE as int)) / (denominator as int);
        if v <= u64::MAX {
            Some(v as u64)
        } else {
            None
        }
    }
}

/// Divides two fixed-point values.
pub fn scaled_div(numerator: u64, denominator: u64) -> (r: Result<u64, Error>)
    ensures
        r == or_overflow(scaled_div_value(numerator, denominator)),
{
    if denominator == 0 {
        return Err(math_overflow());
    }
    proof {
        lemma_u64_product_fits(numerator, PRICE_SCALE);
    }
    let scaled_numerator = checked_mul(numerator as u128, PRICE_SCALE as u128)?;
    checked_as_u64(checked_div(scaled_numerator, denominator as u128)?)
}

/// A fixed-point percentage in basis points (`1% = 100`), rounded down; none where
/// that leaves `u32`.
pub open spec fn scaled_to_bps_value(scaled_pct: u64) -> Option<u32> {
    let bps = scaled_pct / 10_000;
    if bps <= u32::MAX {
        Some(bps as u32)
    } else {
        None
    }
}

/// Converts a fixed-point percentage to basis points.
pub fn scaled_to_bps(scaled_pct: u64) -> (r: Result<u32, Error>)
    ensures
        r == or_overflow(scaled_to_bps_value(scaled_pct)),
{
    let bps = checked_div(scaled_pct, 10_000u64)?;
    if bps > u32::MAX as u64 {
        return Err(math_overflow());
    }
    Ok(bps as u32)
}

/// Converts basis points to a fixed-point percentage; it always fits.
pub fn bps_to_scaled(bps: u32) -> (r: Result<u64, Error>)
    ensures
        r == Ok::<u64, Error>((bps * 10_000) as u64),
{
    checked_mul(bps as u64, 10_000u64)
}

} // verus!
