use vstd::prelude::*;

use crate::errors::DomainError;
use crate::errors::Error;

verus! {

/// Quotient of `a` by `b`, rounded toward zero, as integer division in Rust does.
pub open spec fn trunc_div(a: int, b: int) -> int
    recommends
        b != 0,
{
    let q = (if a < 0 { -a } else { a }) / (if b < 0 { -b } else { b });
    if (a < 0) != (b < 0) { -q } else { q }
}

/// Divides on magnitudes, in 64 bits, and then restores the sign.
fn quotient(a: i32, b: i32) -> (r: i32)
    requires
        b != 0,
        !(a == i32::MIN && b == -1),
    ensures
        r as int == trunc_div(a as int, b as int),
{
    let x: i64 = if a < 0 { -(a as i64) } else { a as i64 };
    let y: i64 = if b < 0 { -(b as i64) } else { b as i64 };
    let q: i64 = x / y;
    assert(0 <= q <= x && (y == 1 ==> q == x) && (y >= 2 ==> 2 * q <= x)) by (nonlinear_arith)
        requires
            0 <= x,
            1 <= y,
            q == x / y,
    ;
    if (a < 0) != (b < 0) {
        (-q) as i32
    } else {
        q as i32
    }
}

/// The outcome of dividing `a` by `b`: the truncated quotient, or a domain
/// error when `b` is zero.
pub open spec fn division(a: i32, b: i32) -> Result<i32, DomainError> {
    if b == 0 {
        Err(DomainError::DivisionByZero)
    } else {
        Ok(trunc_div(a as int, b as int) as i32)
    }
}

/// A domain outcome as a native outcome.
pub open spec fn native_result(r: Result<i32, DomainError>) -> Result<i32, Error> {
    match r {
        Ok(v) => Ok(v),
        Err(e) => Err(Error::Domain(e)),
    }
}

/// Sum of a sequence of integers, from the front.
pub open spec fn sum_of(s: Seq<i32>) -> int
    decreases s.len(),
{
    if s.len() == 0 {
        0
    } else {
        sum_of(s.drop_last()) + s.last()
    }
}

/// Whether `x` fits in a 32-bit signed integer.
pub open spec fn fits_i32(x: int) -> bool {
    i32::MIN <= x <= i32::MAX
}

/// The outcome of summing `s`: the sum, or a domain error when it does not fit.
pub open spec fn total(s: Seq<i32>) -> Result<i32, DomainError> {
    if fits_i32(sum_of(s)) {
        Ok(sum_of(s) as i32)
    } else {
        Err(DomainError::SumOverflow)
    }
}

/// Adds two integers whose sum fits in 32 bits.
pub fn add(a: i32, b: i32) -> (r: i32)
    requires
        fits_i32(a + b),
    ensures
        r == a + b,
{
    a + b
}

/// The fixed number this surface hands out.
pub fn get_magic_number() -> (r: i32)
    ensures
        r == 42,
{
    42
}

/// The division outcome, with the domain error as such.
fn checked_division(a: i32, b: i32) -> (r: Result<i32, DomainError>)
    requires
        !(a == i32::MIN && b == -1),
    ensures
        r == division(a, b),
{
    if b == 0 {
        Err(DomainError::DivisionByZero)
    } else {
        Ok(quotient(a, b))
    }
}

/// Divides `a` by `b`, rounding toward zero; fails when `b` is zero.
pub fn divide(a: i32, b: i32) -> (r: Result<i32, Error>)
    requires
        !(a == i32::MIN && b == -1),
    ensures
        r == native_result(division(a, b)),
{
    match checked_division(a, b) {
        Ok(q) => Ok(q),
        Err(e) => Err(Error::Domain(e)),
    }
}

/// The computation behind the asynchronous division: the same outcome as
/// `divide`, for the async bridge to settle.
pub fn async_divide(a: i32, b: i32) -> (r: Result<i32, Error>)
    requires
        !(a == i32::MIN && b == -1),
    ensures
        r == native_result(division(a, b)),
{
    divide(a, b)
}

/// The computation behind the asynchronous addition.
pub fn async_add(a: i32, b: i32) -> (r: i32)
    requires
        fits_i32(a + b),
    ensures
        r == a + b,
{
    a + b
}

/// Doubles `n` when it is not negative; absent otherwise.
pub fn maybe_double(n: i32) -> (r: Option<i32>)
    requires
        n <= i32::MAX / 2,
    ensures
        n >= 0 ==> r == Some((2 * n) as i32),
        n < 0 ==> r is None,
{
    if n < 0 {
        None
    } else {
        Some(n * 2)
    }
}

/// Doubles each element, keeping their order.
pub fn double_array(numbers: Vec<i32>) -> (r: Vec<i32>)
    requires
        forall|i: int| 0 <= i < numbers@.len() ==> fits_i32(2 * numbers@[i]),
    ensures
        r@.len() == numbers@.len(),
        forall|i: int| 0 <= i < numbers@.len() ==> r@[i] == 2 * numbers@[i],
{
    let mut r: Vec<i32> = Vec::new();
    let mut i: usize = 0;
    while i < numbers.len()
        invariant
            i <= numbers@.len(),
            r@.len() == i,
            forall|k: int| 0 <= k < numbers@.len() ==> fits_i32(2 * numbers@[k]),
            forall|k: int| 0 <= k < i ==> r@[k] == 2 * numbers@[k],
        decreases numbers@.len() - i,
    {
        let x = numbers[i];
        r.push(x * 2);
        i = i + 1;
    }
    r
}

/// The number of elements, as the host's 32-bit length (truncated past its range).
pub fn array_length(arr: Vec<i32>) -> (r: u32)
    ensures
        r == arr@.len() as u32,
{
    arr.len() as u32
}

/// Each element adds at most 2^31 in magnitude to the sum.
proof fn lemma_sum_bound(s: Seq<i32>)
    ensures
        -(s.len() as int) * 0x8000_0000 <= sum_of(s) <= (s.len() as int) * 0x8000_0000,
    decreases s.len(),
{
    if s.len() > 0 {
        lemma_sum_bound(s.drop_last());
    }
}

/// Sums `numbers`; fails when the sum does not fit in 32 bits.
pub fn sum_all(numbers: &Vec<i32>) -> (r: Result<i32, DomainError>)
    ensures
        r == total(numbers@),
{
    let mut acc: i128 = 0;
    let mut i: usize = 0;
    while i < numbers.len()
        invariant
            i <= numbers@.len(),
            acc == sum_of(numbers@.subrange(0, i as int)),
        decreases numbers@.len() - i,
    {
        proof {
            lemma_sum_bound(numbers@.subrange(0, i as int));
            assert(numbers@.subrange(0, i + 1).drop_last() =~= numbers@.subrange(0, i as int));
        }
        acc = acc + numbers[i] as i128;
        i = i + 1;
    }
    assert(numbers@.subrange(0, i as int) =~= numbers@);
    if i32::MIN as i128 <= acc && acc <= i32::MAX as i128 {
        Ok(acc as i32)
    } else {
        Err(DomainError::SumOverflow)
    }
}

/// The computation behind the asynchronous sum.
pub fn async_sum(numbers: Vec<i32>) -> (r: Result<i32, Error>)
    ensures
        r == native_result(total(numbers@)),
{
    match sum_all(&numbers) {
        Ok(s) => Ok(s),
        Err(e) => Err(Error::Domain(e)),
    }
}

} // verus!
