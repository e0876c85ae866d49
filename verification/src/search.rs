//! The search for the first pair of examples that shows a pattern.

use vstd::prelude::*;
use vstd::arithmetic::div_mod::{
    lemma_fundamental_div_mod,
    lemma_fundamental_div_mod_converse,
    lemma_mod_pos_bound,
    lemma_multiply_divide_lt,
    lemma_div_pos_is_pos,
};
use crate::classification::{
    comes_before,
    first_pair,
    fits,
    is_first_pair,
    lemma_first_pair_found,
    lemma_no_pair_none,
    no_pair,
    Pattern,
};
use crate::example::{example_views, Example, ExampleSymbol};
use crate::product::{index_pairs, next_pair, pairs_left, row_major};

verus! {

/// The pair at place `t` of the row-major order is `(t / cols, t % cols)`,
/// and both indices are in range.
proof fn lemma_row_major_at(rows: nat, cols: nat, t: int)
    requires
        0 <= t < rows * cols,
        rows <= usize::MAX,
        cols <= usize::MAX,
    ensures
        cols > 0,
        0 <= t / (cols as int) < rows,
        0 <= t % (cols as int) < cols,
        row_major(rows, cols)[t] == ((t / (cols as int)) as usize, (t % (cols as int)) as usize),
{
    assert(cols > 0) by (nonlinear_arith)
        requires
            0 <= t < rows * cols,
    ;
    lemma_mod_pos_bound(t, cols as int);
    lemma_div_pos_is_pos(t, cols as int);
    assert((cols as int) * (rows as int) == rows * cols) by (nonlinear_arith);
    lemma_multiply_divide_lt(t, cols as int, rows as int);
}

/// A pair that comes before the pair at place `t` stands at a place before
/// `t`.
proof fn lemma_row_major_place(rows: nat, cols: nat, k: int, l: int) -> (t: int)
    requires
        0 <= k < rows,
        0 <= l < cols,
    ensures
        t == k * cols + l,
        0 <= t < rows * cols,
        t / (cols as int) == k,
        t % (cols as int) == l,
{
    let t = k * cols + l;
    lemma_fundamental_div_mod_converse(t, cols as int, k, l);
    assert(0 <= k * cols) by (nonlinear_arith)
        requires
            0 <= k,
            0 <= cols,
    ;
    assert(k * cols + l < rows * cols) by (nonlinear_arith)
        requires
            0 <= k < rows,
            0 <= l < cols,
    ;
    t
}

/// Of two places, the one with the pair that comes before is the smaller.
proof fn lemma_before_is_smaller(cols: nat, k: int, l: int, i: int, j: int)
    requires
        0 <= l < cols,
        0 <= j < cols,
        comes_before(k, l, i, j),
    ensures
        k * cols + l < i * cols + j,
{
    if k < i {
        assert(k * cols + l < i * cols + j) by (nonlinear_arith)
            requires
                k < i,
                0 <= l < cols,
                0 <= j,
        ;
    }
}

/// Whether the symbols of `a` from `a_from` on are those of `b` from
/// `b_from` on.
fn same_from(a: &Vec<ExampleSymbol>, a_from: usize, b: &Vec<ExampleSymbol>, b_from: usize) -> (r:
    bool)
    requires
        a_from <= a.len(),
        b_from <= b.len(),
    ensures
        r == (a@.skip(a_from as int) == b@.skip(b_from as int)),
{
    if a.len() - a_from != b.len() - b_from {
        assert(a@.skip(a_from as int).len() != b@.skip(b_from as int).len());
        return false;
    }
    let count = a.len() - a_from;
    let mut n: usize = 0;
    while n < count
        invariant
            n <= count,
            count == a.len() - a_from,
            count == b.len() - b_from,
            a_from <= a.len(),
            b_from <= b.len(),
            forall|m: int|
                0 <= m < n ==> (#[trigger] a@.skip(a_from as int)[m]) == b@.skip(b_from as int)[m],
        decreases count - n,
    {
        if a[a_from + n] != b[b_from + n] {
            assert(a@.skip(a_from as int)[n as int] != b@.skip(b_from as int)[n as int]);
            return false;
        }
        n += 1;
    }
    assert(a@.skip(a_from as int) =~= b@.skip(b_from as int));
    true
}

/// Whether the pair shows `pattern`.
pub fn shows(pattern: Pattern, action: &Example, reduce: &Example) -> (r: bool)
    ensures
        r == fits(pattern, action@, reduce@),
{
    match pattern {
        Pattern::SameInput => {
            assert(action@.symbols.skip(0) =~= action@.symbols);
            assert(reduce@.symbols.skip(0) =~= reduce@.symbols);
            action.cursor() == reduce.cursor() && same_from(
                action.symbols(),
                0,
                reduce.symbols(),
                0,
            )
        },
        Pattern::Inline => {
            let action_reductions = action.reductions();
            let reduce_reductions = reduce.reductions();
            if action_reductions.len() != 2 || reduce_reductions.len() != 2 {
                return false;
            }
            if reduce_reductions[0].nonterminal == reduce_reductions[1].nonterminal {
                return false;
            }
            assert(action@.reductions[0].end <= action@.symbols.len());
            assert(reduce@.reductions[0].end <= reduce@.symbols.len());
            same_from(
                action.symbols(),
                action_reductions[0].end,
                reduce.symbols(),
                reduce_reductions[0].end,
            )
        },
    }
}

/// The first pair of an action example and a reduce example that shows
/// `pattern`, the pairs taken row by row; `None` where no pair shows it.
pub fn find_first_pair(pattern: Pattern, actions: &Vec<Example>, reduces: &Vec<Example>) -> (r:
    Option<(usize, usize)>)
    ensures
        match r {
            Some((i, j)) => is_first_pair(
                pattern,
                example_views(actions@),
                example_views(reduces@),
                i as int,
                j as int,
            ),
            None => no_pair(pattern, example_views(actions@), example_views(reduces@)),
        },
        first_pair(pattern, example_views(actions@), example_views(reduces@)) == match r {
            Some((i, j)) => Some((i as int, j as int)),
            None => None,
        },
{
    let ghost rows = actions@.len();
    let ghost cols = reduces@.len();
    let ghost all = row_major(rows, cols);
    let ghost action_views = example_views(actions@);
    let ghost reduce_views = example_views(reduces@);
    let action_count = actions.len();
    let reduce_count = reduces.len();
    let mut pairs = index_pairs(action_count, reduce_count);
    let ghost mut taken: int = 0;
    assert(all.skip(0) =~= all);
    loop
        invariant
            rows == actions@.len(),
            cols == reduces@.len(),
            rows == action_count,
            cols == reduce_count,
            all == row_major(rows, cols),
            action_views == example_views(actions@),
            reduce_views == example_views(reduces@),
            0 <= taken <= rows * cols,
            pairs_left(pairs) == all.skip(taken),
            forall|t: int|
                0 <= t < taken ==> !fits(
                    pattern,
                    action_views[#[trigger] (t / (cols as int))],
                    reduce_views[t % (cols as int)],
                ),
        decreases rows * cols - taken,
    {
        match next_pair(&mut pairs) {
            None => {
                proof {
                    assert(taken == rows * cols);
                    assert forall|k: int, l: int|
                        0 <= k < action_views.len() && 0 <= l < reduce_views.len() implies !fits(
                        pattern,
                        #[trigger] action_views[k],
                        #[trigger] reduce_views[l],
                    ) by {
                        let t = lemma_row_major_place(rows, cols, k, l);
                        assert(!fits(
                            pattern,
                            action_views[t / (cols as int)],
                            reduce_views[t % (cols as int)],
                        ));
                    }
                    lemma_no_pair_none(pattern, action_views, reduce_views);
                }
                return None;
            },
            Some((i, j)) => {
                proof {
                    assert(taken < rows * cols);
                    assert(all.skip(taken)[0] == all[taken]);
                    lemma_row_major_at(rows, cols, taken);
                }
                if shows(pattern, &actions[i], &reduces[j]) {
                    proof {
                        assert forall|k: int, l: int|
                            0 <= k < action_views.len() && 0 <= l < reduce_views.len()
                                && comes_before(k, l, i as int, j as int) implies !fits(
                            pattern,
                            #[trigger] action_views[k],
                            #[trigger] reduce_views[l],
                        ) by {
                            let t = lemma_row_major_place(rows, cols, k, l);
                            lemma_before_is_smaller(cols, k, l, i as int, j as int);
                            lemma_fundamental_div_mod(taken, cols as int);
                            assert(i * cols + j == taken) by (nonlinear_arith)
                                requires
                                    taken == (cols as int) * (taken / (cols as int)) + (taken % (
                                    cols as int)),
                                    i == taken / (cols as int),
                                    j == taken % (cols as int),
                            ;
                            assert(!fits(
                                pattern,
                                action_views[t / (cols as int)],
                                reduce_views[t % (cols as int)],
                            ));
                        }
                        lemma_first_pair_found(
                            pattern,
                            action_views,
                            reduce_views,
                            i as int,
                            j as int,
                        );
                    }
                    return Some((i, j));
                }
                proof {
                    assert(all.skip(taken).skip(1) =~= all.skip(taken + 1));
                    taken = taken + 1;
                }
            },
        }
    }
}

} // verus!
