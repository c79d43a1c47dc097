use vstd::prelude::*;

use crate::arith::fits_i32;
use crate::arith::sum_of;
use crate::errors::DomainError;
use crate::errors::Error;

verus! {

/// `ys` are values that the callback `f` may return, without failing, for the
/// elements of `xs`, one for one.
pub open spec fn answers<F: Fn(i32) -> Result<i32, Error>>(
    f: F,
    xs: Seq<i32>,
    ys: Seq<i32>,
) -> bool {
    &&& ys.len() == xs.len()
    &&& forall|i: int| 0 <= i < xs.len() ==> f.ensures((xs[i],), Ok::<i32, Error>(#[trigger] ys[i]))
}

/// Calls the host function once with `value` and hands back what it returned
/// or the failure it reported.
pub fn call_with_value<F: Fn(i32) -> Result<i32, Error>>(callback: F, value: i32) -> (r: Result<
    i32,
    Error,
>)
    requires
        callback.requires((value,)),
    ensures
        callback.ensures((value,), r),
{
    callback(value)
}

/// Calls the host function on each element in order, each call finishing
/// before the next, and sums the results. Stops at the first failure of the
/// callback; fails when the sum does not fit in 32 bits.
pub fn map_and_sum<F: Fn(i32) -> Result<i32, Error>>(numbers: Vec<i32>, callback: F) -> (r: Result<
    i32,
    Error,
>)
    requires
        forall|i: int| 0 <= i < numbers@.len() ==> callback.requires((#[trigger] numbers@[i],)),
    ensures
        r matches Ok(s) ==> exists|ys: Seq<i32>|
            answers(callback, numbers@, ys) && fits_i32(sum_of(ys)) && s == sum_of(ys),
        r matches Err(e) ==> (exists|k: int, ys: Seq<i32>|
            0 <= k < numbers@.len() && answers(callback, numbers@.subrange(0, k), ys)
                && callback.ensures((numbers@[k],), Err::<i32, Error>(e))) || (exists|ys: Seq<i32>|
            answers(callback, numbers@, ys) && !fits_i32(sum_of(ys)) && e == Error::Domain(
                DomainError::SumOverflow,
            )),
{
    let mut acc: i128 = 0;
    let mut i: usize = 0;
    let ghost mut ys: Seq<i32> = Seq::empty();
    while i < numbers.len()
        invariant
            i <= numbers@.len(),
            forall|j: int| 0 <= j < numbers@.len() ==> callback.requires((#[trigger] numbers@[j],)),
            answers(callback, numbers@.subrange(0, i as int), ys),
            acc == sum_of(ys),
            -(i as int) * 0x8000_0000 <= acc <= (i as int) * 0x8000_0000,
        decreases numbers@.len() - i,
    {
        let x = numbers[i];
        match callback(x) {
            Ok(y) => {
                proof {
                    assert(ys.push(y).drop_last() =~= ys);
                    let next = numbers@.subrange(0, i + 1);
                    assert forall|j: int| 0 <= j < next.len() implies callback.ensures(
                        (next[j],),
                        Ok::<i32, Error>(#[trigger] ys.push(y)[j]),
                    ) by {
                        if j < i {
                            assert(next[j] == numbers@.subrange(0, i as int)[j]);
                        }
                    }
                    ys = ys.push(y);
                }
                acc = acc + y as i128;
                i = i + 1;
            },
            Err(e) => {
                return Err(e);
            },
        }
    }
    assert(numbers@.subrange(0, i as int) =~= numbers@);
    if i32::MIN as i128 <= acc && acc <= i32::MAX as i128 {
        Ok(acc as i32)
    } else {
        Err(Error::Domain(DomainError::SumOverflow))
    }
}

/// Where the callback is a mathematical function `g` of its argument, calling
/// it on each element and summing the results gives the sum of `g` over the
/// elements, in their order.
pub proof fn law_invoked_sum_is_mapped_sum<F: Fn(i32) -> Result<i32, Error>>(
    callback: F,
    g: spec_fn(i32) -> i32,
    numbers: Seq<i32>,
    ys: Seq<i32>,
)
    requires
        answers(callback, numbers, ys),
        forall|x: i32, y: Result<i32, Error>| #[trigger] callback.ensures((x,), y) ==> y == Ok::<i32, Error>(g(x)),
    ensures
        ys == numbers.map_values(g),
        sum_of(ys) == sum_of(numbers.map_values(g)),
{
    assert forall|i: int| 0 <= i < numbers.len() implies ys[i] == numbers.map_values(g)[i] by {
        assert(callback.ensures((numbers[i],), Ok::<i32, Error>(ys[i])));
    }
    assert(ys =~= numbers.map_values(g));
}

} // verus!
