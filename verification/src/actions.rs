//! The values of the two marks that stand for a place in the text instead
//! of a piece of it: the place behind what was read last, and the place
//! before what comes next.

use vstd::prelude::*;

verus! {

/// The value of the mark for the place behind what was read last: the
/// offset at which the symbol before it ends.
#[allow(unused_variables)]
pub fn __action9<'input>(input: &'input str, __lookbehind: &usize, __lookahead: &usize) -> (r:
    usize)
    ensures
        r == *__lookbehind,
{
    *__lookbehind
}

/// The value of the mark for the place before what comes next: the offset
/// at which the symbol behind it starts.
#[allow(unused_variables)]
pub fn __action10<'input>(input: &'input str, __lookbehind: &usize, __lookahead: &usize) -> (r:
    usize)
    ensures
        r == *__lookahead,
{
    *__lookahead
}

} // verus!
