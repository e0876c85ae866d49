//! Lazy enumeration of index pairs, in row-major order.

use vstd::prelude::*;
use itertools::Itertools;

verus! {

/// `itertools::Product`, the iterator that `Itertools::cartesian_product`
/// makes. Nothing is known of what is inside it.
#[verifier::external_type_specification]
#[verifier::external_body]
#[verifier::reject_recursive_types(I)]
#[verifier::reject_recursive_types(J)]
pub struct ExProduct<I: Iterator, J>(itertools::Product<I, J>);

/// The pairs that a product of two index ranges has still to give, in the
/// order in which it gives them.
pub uninterp spec fn pairs_left(
    p: itertools::Product<std::ops::Range<usize>, std::ops::Range<usize>>,
) -> Seq<(usize, usize)>;

/// All pairs `(i, j)` with `i < rows` and `j < cols`, the second index
/// running fastest.
pub open spec fn row_major(rows: nat, cols: nat) -> Seq<(usize, usize)> {
    Seq::new(rows * cols, |k: int| ((k / (cols as int)) as usize, (k % (cols as int)) as usize))
}

/// `Itertools::cartesian_product` on `0..rows` and `0..cols`: nothing has
/// been taken yet, so every pair is still to come, in row-major order.
#[verifier::external_body]
pub(crate) fn index_pairs(rows: usize, cols: usize) -> (p: itertools::Product<
    std::ops::Range<usize>,
    std::ops::Range<usize>,
>)
    ensures
        pairs_left(p) == row_major(rows as nat, cols as nat),
{
    (0..rows).cartesian_product(0..cols)
}

/// `Iterator::next` of the product: hands out the first pair that is left,
/// or `None` when none is.
#[verifier::external_body]
pub(crate) fn next_pair(
    p: &mut itertools::Product<std::ops::Range<usize>, std::ops::Range<usize>>,
) -> (r: Option<(usize, usize)>)
    ensures
        pairs_left(*old(p)).len() == 0 ==> r is None && pairs_left(*final(p)).len() == 0,
        pairs_left(*old(p)).len() > 0 ==> r == Some(pairs_left(*old(p))[0]) && pairs_left(
            *final(p),
        ) == pairs_left(*old(p)).skip(1),
{
    p.next()
}

} // verus!
