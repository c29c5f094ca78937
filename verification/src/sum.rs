//! Sums of one or more terms, taken in order from the first term.

use crate::arithmetic::{is_deterministic, sum_is, vec_sum_is, Arithmetic};
use crate::scalar::Scalar;
use crate::vector::Vector2;
use vstd::prelude::*;

verus! {

/// `total` is a value that `terms[0] + terms[1] + ...` may take, summed from
/// left to right. No value is the sum of no terms.
pub open spec fn total_is<A: Arithmetic>(ar: &A, terms: Seq<Scalar>, total: Scalar) -> bool
    decreases terms.len(),
{
    if terms.len() == 0 {
        false
    } else if terms.len() == 1 {
        total == terms[0]
    } else {
        exists|before: Scalar|
            {
                &&& total_is(ar, terms.drop_last(), before)
                &&& #[trigger] sum_is(ar, before, terms.last(), total)
            }
    }
}

/// `total` is a value that `terms[0] + terms[1] + ...` may take, summed from
/// left to right. No value is the sum of no terms.
pub open spec fn vec_total_is<A: Arithmetic>(ar: &A, terms: Seq<Vector2>, total: Vector2) -> bool
    decreases terms.len(),
{
    if terms.len() == 0 {
        false
    } else if terms.len() == 1 {
        total == terms[0]
    } else {
        exists|before: Vector2|
            {
                &&& vec_total_is(ar, terms.drop_last(), before)
                &&& #[trigger] vec_sum_is(ar, before, terms.last(), total)
            }
    }
}

/// One more term added to a sum is the sum of one more term.
pub proof fn total_extends<A: Arithmetic>(
    ar: &A,
    terms: Seq<Scalar>,
    term: Scalar,
    before: Scalar,
    total: Scalar,
)
    requires
        total_is(ar, terms, before),
        sum_is(ar, before, term, total),
    ensures
        total_is(ar, terms.push(term), total),
{
    let longer = terms.push(term);
    assert(longer.drop_last() =~= terms);
    assert(longer.last() == term);
}

/// One more term added to a sum is the sum of one more term.
pub proof fn vec_total_extends<A: Arithmetic>(
    ar: &A,
    terms: Seq<Vector2>,
    term: Vector2,
    before: Vector2,
    total: Vector2,
)
    requires
        vec_total_is(ar, terms, before),
        vec_sum_is(ar, before, term, total),
    ensures
        vec_total_is(ar, terms.push(term), total),
{
    let longer = terms.push(term);
    assert(longer.drop_last() =~= terms);
    assert(longer.last() == term);
}

/// Under a deterministic arithmetic a sum is a function of its terms.
pub proof fn total_is_unique<A: Arithmetic>(
    ar: &A,
    terms: Seq<Scalar>,
    first: Scalar,
    second: Scalar,
)
    requires
        is_deterministic(ar),
        total_is(ar, terms, first),
        total_is(ar, terms, second),
    ensures
        first == second,
    decreases terms.len(),
{
    if terms.len() > 1 {
        let before1 = choose|before: Scalar|
            {
                &&& total_is(ar, terms.drop_last(), before)
                &&& #[trigger] sum_is(ar, before, terms.last(), first)
            };
        let before2 = choose|before: Scalar|
            {
                &&& total_is(ar, terms.drop_last(), before)
                &&& #[trigger] sum_is(ar, before, terms.last(), second)
            };
        total_is_unique(ar, terms.drop_last(), before1, before2);
    }
}

/// Under a deterministic arithmetic a sum is a function of its terms.
pub proof fn vec_total_is_unique<A: Arithmetic>(
    ar: &A,
    terms: Seq<Vector2>,
    first: Vector2,
    second: Vector2,
)
    requires
        is_deterministic(ar),
        vec_total_is(ar, terms, first),
        vec_total_is(ar, terms, second),
    ensures
        first == second,
    decreases terms.len(),
{
    if terms.len() > 1 {
        let before1 = choose|before: Vector2|
            {
                &&& vec_total_is(ar, terms.drop_last(), before)
                &&& #[trigger] vec_sum_is(ar, before, terms.last(), first)
            };
        let before2 = choose|before: Vector2|
            {
                &&& vec_total_is(ar, terms.drop_last(), before)
                &&& #[trigger] vec_sum_is(ar, before, terms.last(), second)
            };
        vec_total_is_unique(ar, terms.drop_last(), before1, before2);
    }
}

} // verus!
