//! Coordinate scalars: the integer types a box can be built on, with the arithmetic,
//! order, rounding and conversions the geometry needs, each stated over the
//! mathematical value of the coordinate.

use vstd::prelude::*;

verus! {

/// Rust's integer division, which rounds the quotient toward zero.
pub open spec fn trunc_div(a: int, b: int) -> int {
    let q = abs_int(a) / abs_int(b);
    if (a < 0) == (b < 0) { q } else { -q }
}

pub open spec fn abs_int(a: int) -> int {
    if a < 0 { -a } else { a }
}

/// Euclidean division by a negative divisor negates the quotient by its absolute value.
proof fn lemma_div_neg_divisor(a: int, b: int) by (nonlinear_arith)
    requires
        b < 0,
    ensures
        a / b == -(a / (-b)),

{
}

proof fn lemma_trunc_div_matches(a: int, b: int)
    requires
        b != 0,
    ensures
        a >= 0 ==> a / b == trunc_div(a, b),
        a < 0 ==> -((-a) / b) == trunc_div(a, b),
{
    if b < 0 {
        lemma_div_neg_divisor(a, b);
        lemma_div_neg_divisor(-a, b);
    }
}

/// Dividing by a positive integer as Rust does moves the value toward zero
/// without crossing it.
pub proof fn lemma_trunc_div_toward_zero(a: int, b: int)
    requires
        b >= 1,
    ensures
        a >= 0 ==> 0 <= trunc_div(a, b) <= a,
        a < 0 ==> a <= trunc_div(a, b) <= 0,
{
    lemma_div_shrinks(abs_int(a), b);
}

proof fn lemma_div_shrinks(a: int, b: int) by (nonlinear_arith)
    requires
        a >= 0,
        b >= 1,
    ensures
        0 <= a / b <= a,
{
}

/// A scalar that can serve as a coordinate: a machine integer, seen through its
/// mathematical value `val`. The operations are those that boxes, points and sizes
/// need: the constants zero and one, the four arithmetic operations with Rust's
/// semantics, the order, rounding, and checked conversion to another coordinate type.
pub trait Coord: Copy + Sized {
    /// The integer that the coordinate stands for.
    spec fn val(self) -> int;

    /// Whether `v` can be held by this type.
    spec fn in_range(v: int) -> bool;

    proof fn lemma_val_in_range(self)
        ensures
            Self::in_range(self.val()),
    ;

    proof fn lemma_val_injective(a: Self, b: Self)
        ensures
            a.val() == b.val() <==> a == b,
    ;

    /// The coordinate whose value is `v`, for `v` in range.
    spec fn from_val(v: int) -> Self;

    proof fn lemma_from_val(v: int)
        requires
            Self::in_range(v),
        ensures
            Self::from_val(v).val() == v,
    ;

    proof fn lemma_range_holds_small()
        ensures
            Self::in_range(0),
            Self::in_range(1),
            Self::in_range(2),
    ;

    /// The values a type can hold form an interval.
    proof fn lemma_range_convex(a: int, b: int, v: int)
        requires
            Self::in_range(a),
            Self::in_range(b),
            a <= v <= b,
        ensures
            Self::in_range(v),
    ;

    fn zero() -> (r: Self)
        ensures
            r.val() == 0,
    ;

    fn one() -> (r: Self)
        ensures
            r.val() == 1,
    ;

    fn add(self, other: Self) -> (r: Self)
        requires
            Self::in_range(self.val() + other.val()),
        ensures
            r.val() == self.val() + other.val(),
    ;

    fn sub(self, other: Self) -> (r: Self)
        requires
            Self::in_range(self.val() - other.val()),
        ensures
            r.val() == self.val() - other.val(),
    ;

    fn mul(self, other: Self) -> (r: Self)
        requires
            Self::in_range(self.val() * other.val()),
        ensures
            r.val() == self.val() * other.val(),
    ;

    fn div(self, other: Self) -> (r: Self)
        requires
            other.val() != 0,
            Self::in_range(trunc_div(self.val(), other.val())),
        ensures
            r.val() == trunc_div(self.val(), other.val()),
    ;

    fn lt(self, other: Self) -> (r: bool)
        ensures
            r == (self.val() < other.val()),
    ;

    fn le(self, other: Self) -> (r: bool)
        ensures
            r == (self.val() <= other.val()),
    ;

    fn eq(self, other: Self) -> (r: bool)
        ensures
            r == (self.val() == other.val()),
    ;

    /// Rounds to the nearest integer; an integer coordinate is its own rounding.
    fn round(self) -> (r: Self)
        ensures
            r.val() == self.val(),
    ;

    /// The largest integer not above the value.
    fn floor(self) -> (r: Self)
        ensures
            r.val() == self.val(),
    ;

    /// The smallest integer not below the value.
    fn ceil(self) -> (r: Self)
        ensures
            r.val() == self.val(),
    ;

    /// The value as an `i128`, which holds every coordinate type's values.
    fn to_i128(self) -> (r: i128)
        ensures
            r == self.val(),
    ;

    /// The coordinate of this type whose value is `v`, if there is one.
    fn from_i128(v: i128) -> (r: Option<Self>)
        ensures
            r is Some <==> Self::in_range(v as int),
            r matches Some(c) ==> c.val() == v,
    ;
}

/// i32 holds the integers from `i32::MIN` to `i32::MAX`.
impl Coord for i32 {
    open spec fn val(self) -> int {
        self as int
    }

    open spec fn from_val(v: int) -> Self {
        v as i32
    }

    proof fn lemma_from_val(v: int) {
    }

    open spec fn in_range(v: int) -> bool {
        i32::MIN <= v <= i32::MAX
    }

    proof fn lemma_val_in_range(self) {
    }

    proof fn lemma_val_injective(a: Self, b: Self) {
    }

    proof fn lemma_range_holds_small() {
    }

    proof fn lemma_range_convex(a: int, b: int, v: int) {
    }

    fn zero() -> (r: Self) {
        0
    }

    fn one() -> (r: Self) {
        1
    }

    fn add(self, other: Self) -> (r: Self) {
        self + other
    }

    fn sub(self, other: Self) -> (r: Self) {
        self - other
    }

    fn mul(self, other: Self) -> (r: Self) {
        self * other
    }

    fn div(self, other: Self) -> (r: Self) {
        proof {
            lemma_trunc_div_matches(self as int, other as int);
        }
        self / other
    }

    fn lt(self, other: Self) -> (r: bool) {
        self < other
    }

    fn le(self, other: Self) -> (r: bool) {
        self <= other
    }

    fn eq(self, other: Self) -> (r: bool) {
        self == other
    }

    fn round(self) -> (r: Self) {
        self
    }

    fn floor(self) -> (r: Self) {
        self
    }

    fn ceil(self) -> (r: Self) {
        self
    }

    fn to_i128(self) -> (r: i128) {
        self as i128
    }

    fn from_i128(v: i128) -> (r: Option<Self>) {
        cast_i128_to_i32(v)
    }
}

/// Calls `num_traits::cast::<i128, i32>`, which converts through
/// `ToPrimitive::to_i32`: the claim is that it gives `Some` of the same value
/// when `v` lies between `i32::MIN` and `i32::MAX`, and `None` otherwise.
#[verifier::external_body]
fn cast_i128_to_i32(v: i128) -> (r: Option<i32>)
    ensures
        r == (if i32::MIN <= v <= i32::MAX {
            Some(v as i32)
        } else {
            None
        }),
{
    num_traits::cast::<i128, i32>(v)
}

/// i64 holds the integers from `i64::MIN` to `i64::MAX`.
impl Coord for i64 {
    open spec fn val(self) -> int {
        self as int
    }

    open spec fn from_val(v: int) -> Self {
        v as i64
    }

    proof fn lemma_from_val(v: int) {
    }

    open spec fn in_range(v: int) -> bool {
        i64::MIN <= v <= i64::MAX
    }

    proof fn lemma_val_in_range(self) {
    }

    proof fn lemma_val_injective(a: Self, b: Self) {
    }

    proof fn lemma_range_holds_small() {
    }

    proof fn lemma_range_convex(a: int, b: int, v: int) {
    }

    fn zero() -> (r: Self) {
        0
    }

    fn one() -> (r: Self) {
        1
    }

    fn add(self, other: Self) -> (r: Self) {
        self + other
    }

    fn sub(self, other: Self) -> (r: Self) {
        self - other
    }

    fn mul(self, other: Self) -> (r: Self) {
        self * other
    }

    fn div(self, other: Self) -> (r: Self) {
        proof {
            lemma_trunc_div_matches(self as int, other as int);
        }
        self / other
    }

    fn lt(self, other: Self) -> (r: bool) {
        self < other
    }

    fn le(self, other: Self) -> (r: bool) {
        self <= other
    }

    fn eq(self, other: Self) -> (r: bool) {
        self == other
    }

    fn round(self) -> (r: Self) {
        self
    }

    fn floor(self) -> (r: Self) {
        self
    }

    fn ceil(self) -> (r: Self) {
        self
    }

    fn to_i128(self) -> (r: i128) {
        self as i128
    }

    fn from_i128(v: i128) -> (r: Option<Self>) {
        cast_i128_to_i64(v)
    }
}

/// Calls `num_traits::cast::<i128, i64>`, which converts through
/// `ToPrimitive::to_i64`: the claim is that it gives `Some` of the same value
/// when `v` lies between `i64::MIN` and `i64::MAX`, and `None` otherwise.
#[verifier::external_body]
fn cast_i128_to_i64(v: i128) -> (r: Option<i64>)
    ensures
        r == (if i64::MIN <= v <= i64::MAX {
            Some(v as i64)
        } else {
            None
        }),
{
    num_traits::cast::<i128, i64>(v)
}

/// u32 holds the integers from `0` to `u32::MAX`.
impl Coord for u32 {
    open spec fn val(self) -> int {
        self as int
    }

    open spec fn from_val(v: int) -> Self {
        v as u32
    }

    proof fn lemma_from_val(v: int) {
    }

    open spec fn in_range(v: int) -> bool {
        0 <= v <= u32::MAX
    }

    proof fn lemma_val_in_range(self) {
    }

    proof fn lemma_val_injective(a: Self, b: Self) {
    }

    proof fn lemma_range_holds_small() {
    }

    proof fn lemma_range_convex(a: int, b: int, v: int) {
    }

    fn zero() -> (r: Self) {
        0
    }

    fn one() -> (r: Self) {
        1
    }

    fn add(self, other: Self) -> (r: Self) {
        self + other
    }

    fn sub(self, other: Self) -> (r: Self) {
        self - other
    }

    fn mul(self, other: Self) -> (r: Self) {
        self * other
    }

    fn div(self, other: Self) -> (r: Self) {
        self / other
    }

    fn lt(self, other: Self) -> (r: bool) {
        self < other
    }

    fn le(self, other: Self) -> (r: bool) {
        self <= other
    }

    fn eq(self, other: Self) -> (r: bool) {
        self == other
    }

    fn round(self) -> (r: Self) {
        self
    }

    fn floor(self) -> (r: Self) {
        self
    }

    fn ceil(self) -> (r: Self) {
        self
    }

    fn to_i128(self) -> (r: i128) {
        self as i128
    }

    fn from_i128(v: i128) -> (r: Option<Self>) {
        cast_i128_to_u32(v)
    }
}

/// Calls `num_traits::cast::<i128, u32>`, which converts through
/// `ToPrimitive::to_u32`: the claim is that it gives `Some` of the same value
/// when `v` lies between `u32::MIN` and `u32::MAX`, and `None` otherwise.
#[verifier::external_body]
fn cast_i128_to_u32(v: i128) -> (r: Option<u32>)
    ensures
        r == (if 0 <= v <= u32::MAX {
            Some(v as u32)
        } else {
            None
        }),
{
    num_traits::cast::<i128, u32>(v)
}

/// usize holds the integers from `0` to `usize::MAX`.
impl Coord for usize {
    open spec fn val(self) -> int {
        self as int
    }

    open spec fn from_val(v: int) -> Self {
        v as usize
    }

    proof fn lemma_from_val(v: int) {
    }

    open spec fn in_range(v: int) -> bool {
        0 <= v <= usize::MAX
    }

    proof fn lemma_val_in_range(self) {
    }

    proof fn lemma_val_injective(a: Self, b: Self) {
    }

    proof fn lemma_range_holds_small() {
    }

    proof fn lemma_range_convex(a: int, b: int, v: int) {
    }

    fn zero() -> (r: Self) {
        0
    }

    fn one() -> (r: Self) {
        1
    }

    fn add(self, other: Self) -> (r: Self) {
        self + other
    }

    fn sub(self, other: Self) -> (r: Self) {
        self - other
    }

    fn mul(self, other: Self) -> (r: Self) {
        self * other
    }

    fn div(self, other: Self) -> (r: Self) {
        self / other
    }

    fn lt(self, other: Self) -> (r: bool) {
        self < other
    }

    fn le(self, other: Self) -> (r: bool) {
        self <= other
    }

    fn eq(self, other: Self) -> (r: bool) {
        self == other
    }

    fn round(self) -> (r: Self) {
        self
    }

    fn floor(self) -> (r: Self) {
        self
    }

    fn ceil(self) -> (r: Self) {
        self
    }

    fn to_i128(self) -> (r: i128) {
        self as i128
    }

    fn from_i128(v: i128) -> (r: Option<Self>) {
        cast_i128_to_usize(v)
    }
}

/// Calls `num_traits::cast::<i128, usize>`, which converts through
/// `ToPrimitive::to_usize`: the claim is that it gives `Some` of the same value
/// when `v` lies between `usize::MIN` and `usize::MAX`, and `None` otherwise.
#[verifier::external_body]
fn cast_i128_to_usize(v: i128) -> (r: Option<usize>)
    ensures
        r == (if 0 <= v <= usize::MAX {
            Some(v as usize)
        } else {
            None
        }),
{
    num_traits::cast::<i128, usize>(v)
}

/// i8 holds the integers from `i8::MIN` to `i8::MAX`.
impl Coord for i8 {
    open spec fn val(self) -> int {
        self as int
    }

    open spec fn from_val(v: int) -> Self {
        v as i8
    }

    proof fn lemma_from_val(v: int) {
    }

    open spec fn in_range(v: int) -> bool {
        i8::MIN <= v <= i8::MAX
    }

    proof fn lemma_val_in_range(self) {
    }

    proof fn lemma_val_injective(a: Self, b: Self) {
    }

    proof fn lemma_range_holds_small() {
    }

    proof fn lemma_range_convex(a: int, b: int, v: int) {
    }

    fn zero() -> (r: Self) {
        0
    }

    fn one() -> (r: Self) {
        1
    }

    fn add(self, other: Self) -> (r: Self) {
        self + other
    }

    fn sub(self, other: Self) -> (r: Self) {
        self - other
    }

    fn mul(self, other: Self) -> (r: Self) {
        self * other
    }

    fn div(self, other: Self) -> (r: Self) {
        proof {
            lemma_trunc_div_matches(self as int, other as int);
        }
        self / other
    }

    fn lt(self, other: Self) -> (r: bool) {
        self < other
    }

    fn le(self, other: Self) -> (r: bool) {
        self <= other
    }

    fn eq(self, other: Self) -> (r: bool) {
        self == other
    }

    fn round(self) -> (r: Self) {
        self
    }

    fn floor(self) -> (r: Self) {
        self
    }

    fn ceil(self) -> (r: Self) {
        self
    }

    fn to_i128(self) -> (r: i128) {
        self as i128
    }

    fn from_i128(v: i128) -> (r: Option<Self>) {
        cast_i128_to_i8(v)
    }
}

/// Calls `num_traits::cast::<i128, i8>`, which converts through
/// `ToPrimitive::to_i8`: the claim is that it gives `Some` of the same value
/// when `v` lies between `i8::MIN` and `i8::MAX`, and `None` otherwise.
#[verifier::external_body]
fn cast_i128_to_i8(v: i128) -> (r: Option<i8>)
    ensures
        r == (if i8::MIN <= v <= i8::MAX {
            Some(v as i8)
        } else {
            None
        }),
{
    num_traits::cast::<i128, i8>(v)
}

/// i16 holds the integers from `i16::MIN` to `i16::MAX`.
impl Coord for i16 {
    open spec fn val(self) -> int {
        self as int
    }

    open spec fn from_val(v: int) -> Self {
        v as i16
    }

    proof fn lemma_from_val(v: int) {
    }

    open spec fn in_range(v: int) -> bool {
        i16::MIN <= v <= i16::MAX
    }

    proof fn lemma_val_in_range(self) {
    }

    proof fn lemma_val_injective(a: Self, b: Self) {
    }

    proof fn lemma_range_holds_small() {
    }

    proof fn lemma_range_convex(a: int, b: int, v: int) {
    }

    fn zero() -> (r: Self) {
        0
    }

    fn one() -> (r: Self) {
        1
    }

    fn add(self, other: Self) -> (r: Self) {
        self + other
    }

    fn sub(self, other: Self) -> (r: Self) {
        self - other
    }

    fn mul(self, other: Self) -> (r: Self) {
        self * other
    }

    fn div(self, other: Self) -> (r: Self) {
        proof {
            lemma_trunc_div_matches(self as int, other as int);
        }
        self / other
    }

    fn lt(self, other: Self) -> (r: bool) {
        self < other
    }

    fn le(self, other: Self) -> (r: bool) {
        self <= other
    }

    fn eq(self, other: Self) -> (r: bool) {
        self == other
    }

    fn round(self) -> (r: Self) {
        self
    }

    fn floor(self) -> (r: Self) {
        self
    }

    fn ceil(self) -> (r: Self) {
        self
    }

    fn to_i128(self) -> (r: i128) {
        self as i128
    }

    fn from_i128(v: i128) -> (r: Option<Self>) {
        cast_i128_to_i16(v)
    }
}

/// Calls `num_traits::cast::<i128, i16>`, which converts through
/// `ToPrimitive::to_i16`: the claim is that it gives `Some` of the same value
/// when `v` lies between `i16::MIN` and `i16::MAX`, and `None` otherwise.
#[verifier::external_body]
fn cast_i128_to_i16(v: i128) -> (r: Option<i16>)
    ensures
        r == (if i16::MIN <= v <= i16::MAX {
            Some(v as i16)
        } else {
            None
        }),
{
    num_traits::cast::<i128, i16>(v)
}

/// i128 holds the integers from `i128::MIN` to `i128::MAX`.
impl Coord for i128 {
    open spec fn val(self) -> int {
        self as int
    }

    open spec fn from_val(v: int) -> Self {
        v as i128
    }

    proof fn lemma_from_val(v: int) {
    }

    open spec fn in_range(v: int) -> bool {
        i128::MIN <= v <= i128::MAX
    }

    proof fn lemma_val_in_range(self) {
    }

    proof fn lemma_val_injective(a: Self, b: Self) {
    }

    proof fn lemma_range_holds_small() {
    }

    proof fn lemma_range_convex(a: int, b: int, v: int) {
    }

    fn zero() -> (r: Self) {
        0
    }

    fn one() -> (r: Self) {
        1
    }

    fn add(self, other: Self) -> (r: Self) {
        self + other
    }

    fn sub(self, other: Self) -> (r: Self) {
        self - other
    }

    fn mul(self, other: Self) -> (r: Self) {
        self * other
    }

    fn div(self, other: Self) -> (r: Self) {
        proof {
            lemma_trunc_div_matches(self as int, other as int);
        }
        self / other
    }

    fn lt(self, other: Self) -> (r: bool) {
        self < other
    }

    fn le(self, other: Self) -> (r: bool) {
        self <= other
    }

    fn eq(self, other: Self) -> (r: bool) {
        self == other
    }

    fn round(self) -> (r: Self) {
        self
    }

    fn floor(self) -> (r: Self) {
        self
    }

    fn ceil(self) -> (r: Self) {
        self
    }

    fn to_i128(self) -> (r: i128) {
        self as i128
    }

    fn from_i128(v: i128) -> (r: Option<Self>) {
        cast_i128_to_i128(v)
    }
}

/// Calls `num_traits::cast::<i128, i128>`, which converts through
/// `ToPrimitive::to_i128`: the claim is that it gives `Some` of the same value
/// when `v` lies between `i128::MIN` and `i128::MAX`, and `None` otherwise.
#[verifier::external_body]
fn cast_i128_to_i128(v: i128) -> (r: Option<i128>)
    ensures
        r == (if i128::MIN <= v <= i128::MAX {
            Some(v as i128)
        } else {
            None
        }),
{
    num_traits::cast::<i128, i128>(v)
}

/// isize holds the integers from `isize::MIN` to `isize::MAX`.
impl Coord for isize {
    open spec fn val(self) -> int {
        self as int
    }

    open spec fn from_val(v: int) -> Self {
        v as isize
    }

    proof fn lemma_from_val(v: int) {
    }

    open spec fn in_range(v: int) -> bool {
        isize::MIN <= v <= isize::MAX
    }

    proof fn lemma_val_in_range(self) {
    }

    proof fn lemma_val_injective(a: Self, b: Self) {
    }

    proof fn lemma_range_holds_small() {
    }

    proof fn lemma_range_convex(a: int, b: int, v: int) {
    }

    fn zero() -> (r: Self) {
        0
    }

    fn one() -> (r: Self) {
        1
    }

    fn add(self, other: Self) -> (r: Self) {
        self + other
    }

    fn sub(self, other: Self) -> (r: Self) {
        self - other
    }

    fn mul(self, other: Self) -> (r: Self) {
        self * other
    }

    fn div(self, other: Self) -> (r: Self) {
        proof {
            lemma_trunc_div_matches(self as int, other as int);
        }
        self / other
    }

    fn lt(self, other: Self) -> (r: bool) {
        self < other
    }

    fn le(self, other: Self) -> (r: bool) {
        self <= other
    }

    fn eq(self, other: Self) -> (r: bool) {
        self == other
    }

    fn round(self) -> (r: Self) {
        self
    }

    fn floor(self) -> (r: Self) {
        self
    }

    fn ceil(self) -> (r: Self) {
        self
    }

    fn to_i128(self) -> (r: i128) {
        self as i128
    }

    fn from_i128(v: i128) -> (r: Option<Self>) {
        cast_i128_to_isize(v)
    }
}

/// Calls `num_traits::cast::<i128, isize>`, which converts through
/// `ToPrimitive::to_isize`: the claim is that it gives `Some` of the same value
/// when `v` lies between `isize::MIN` and `isize::MAX`, and `None` otherwise.
#[verifier::external_body]
fn cast_i128_to_isize(v: i128) -> (r: Option<isize>)
    ensures
        r == (if isize::MIN <= v <= isize::MAX {
            Some(v as isize)
        } else {
            None
        }),
{
    num_traits::cast::<i128, isize>(v)
}

/// u8 holds the integers from `0` to `u8::MAX`.
impl Coord for u8 {
    open spec fn val(self) -> int {
        self as int
    }

    open spec fn from_val(v: int) -> Self {
        v as u8
    }

    proof fn lemma_from_val(v: int) {
    }

    open spec fn in_range(v: int) -> bool {
        0 <= v <= u8::MAX
    }

    proof fn lemma_val_in_range(self) {
    }

    proof fn lemma_val_injective(a: Self, b: Self) {
    }

    proof fn lemma_range_holds_small() {
    }

    proof fn lemma_range_convex(a: int, b: int, v: int) {
    }

    fn zero() -> (r: Self) {
        0
    }

    fn one() -> (r: Self) {
        1
    }

    fn add(self, other: Self) -> (r: Self) {
        self + other
    }

    fn sub(self, other: Self) -> (r: Self) {
        self - other
    }

    fn mul(self, other: Self) -> (r: Self) {
        self * other
    }

    fn div(self, other: Self) -> (r: Self) {
        self / other
    }

    fn lt(self, other: Self) -> (r: bool) {
        self < other
    }

    fn le(self, other: Self) -> (r: bool) {
        self <= other
    }

    fn eq(self, other: Self) -> (r: bool) {
        self == other
    }

    fn round(self) -> (r: Self) {
        self
    }

    fn floor(self) -> (r: Self) {
        self
    }

    fn ceil(self) -> (r: Self) {
        self
    }

    fn to_i128(self) -> (r: i128) {
        self as i128
    }

    fn from_i128(v: i128) -> (r: Option<Self>) {
        cast_i128_to_u8(v)
    }
}

/// Calls `num_traits::cast::<i128, u8>`, which converts through
/// `ToPrimitive::to_u8`: the claim is that it gives `Some` of the same value
/// when `v` lies between `0` and `u8::MAX`, and `None` otherwise.
#[verifier::external_body]
fn cast_i128_to_u8(v: i128) -> (r: Option<u8>)
    ensures
        r == (if 0 <= v <= u8::MAX {
            Some(v as u8)
        } else {
            None
        }),
{
    num_traits::cast::<i128, u8>(v)
}

/// u16 holds the integers from `0` to `u16::MAX`.
impl Coord for u16 {
    open spec fn val(self) -> int {
        self as int
    }

    open spec fn from_val(v: int) -> Self {
        v as u16
    }

    proof fn lemma_from_val(v: int) {
    }

    open spec fn in_range(v: int) -> bool {
        0 <= v <= u16::MAX
    }

    proof fn lemma_val_in_range(self) {
    }

    proof fn lemma_val_injective(a: Self, b: Self) {
    }

    proof fn lemma_range_holds_small() {
    }

    proof fn lemma_range_convex(a: int, b: int, v: int) {
    }

    fn zero() -> (r: Self) {
        0
    }

    fn one() -> (r: Self) {
        1
    }

    fn add(self, other: Self) -> (r: Self) {
        self + other
    }

    fn sub(self, other: Self) -> (r: Self) {
        self - other
    }

    fn mul(self, other: Self) -> (r: Self) {
        self * other
    }

    fn div(self, other: Self) -> (r: Self) {
        self / other
    }

    fn lt(self, other: Self) -> (r: bool) {
        self < other
    }

    fn le(self, other: Self) -> (r: bool) {
        self <= other
    }

    fn eq(self, other: Self) -> (r: bool) {
        self == other
    }

    fn round(self) -> (r: Self) {
        self
    }

    fn floor(self) -> (r: Self) {
        self
    }

    fn ceil(self) -> (r: Self) {
        self
    }

    fn to_i128(self) -> (r: i128) {
        self as i128
    }

    fn from_i128(v: i128) -> (r: Option<Self>) {
        cast_i128_to_u16(v)
    }
}

/// Calls `num_traits::cast::<i128, u16>`, which converts through
/// `ToPrimitive::to_u16`: the claim is that it gives `Some` of the same value
/// when `v` lies between `0` and `u16::MAX`, and `None` otherwise.
#[verifier::external_body]
fn cast_i128_to_u16(v: i128) -> (r: Option<u16>)
    ensures
        r == (if 0 <= v <= u16::MAX {
            Some(v as u16)
        } else {
            None
        }),
{
    num_traits::cast::<i128, u16>(v)
}

/// u64 holds the integers from `0` to `u64::MAX`.
impl Coord for u64 {
    open spec fn val(self) -> int {
        self as int
    }

    open spec fn from_val(v: int) -> Self {
        v as u64
    }

    proof fn lemma_from_val(v: int) {
    }

    open spec fn in_range(v: int) -> bool {
        0 <= v <= u64::MAX
    }

    proof fn lemma_val_in_range(self) {
    }

    proof fn lemma_val_injective(a: Self, b: Self) {
    }

    proof fn lemma_range_holds_small() {
    }

    proof fn lemma_range_convex(a: int, b: int, v: int) {
    }

    fn zero() -> (r: Self) {
        0
    }

    fn one() -> (r: Self) {
        1
    }

    fn add(self, other: Self) -> (r: Self) {
        self + other
    }

    fn sub(self, other: Self) -> (r: Self) {
        self - other
    }

    fn mul(self, other: Self) -> (r: Self) {
        self * other
    }

    fn div(self, other: Self) -> (r: Self) {
        self / other
    }

    fn lt(self, other: Self) -> (r: bool) {
        self < other
    }

    fn le(self, other: Self) -> (r: bool) {
        self <= other
    }

    fn eq(self, other: Self) -> (r: bool) {
        self == other
    }

    fn round(self) -> (r: Self) {
        self
    }

    fn floor(self) -> (r: Self) {
        self
    }

    fn ceil(self) -> (r: Self) {
        self
    }

    fn to_i128(self) -> (r: i128) {
        self as i128
    }

    fn from_i128(v: i128) -> (r: Option<Self>) {
        cast_i128_to_u64(v)
    }
}

/// Calls `num_traits::cast::<i128, u64>`, which converts through
/// `ToPrimitive::to_u64`: the claim is that it gives `Some` of the same value
/// when `v` lies between `0` and `u64::MAX`, and `None` otherwise.
#[verifier::external_body]
fn cast_i128_to_u64(v: i128) -> (r: Option<u64>)
    ensures
        r == (if 0 <= v <= u64::MAX {
            Some(v as u64)
        } else {
            None
        }),
{
    num_traits::cast::<i128, u64>(v)
}

} // verus!
