//! The search that finds, for an item of a state, the inputs that lead the
//! automaton there.

use vstd::prelude::*;
use crate::automaton::{Item, LR0Item, StateIndex};
use crate::example::Example;

verus! {

/// The backward search through the automaton. The diagnosis asks it for
/// examples and takes whatever it finds: many, few or none.
pub trait Tracer {
    /// Examples of inputs after which `state` is about to shift over the
    /// dot of `item`.
    fn backtrace_shift<'grammar>(&self, state: StateIndex, item: LR0Item<'grammar>) -> Vec<Example>;

    /// Examples of inputs after which `state` is about to reduce the
    /// completed `item`.
    fn backtrace_reduce<'grammar>(&self, state: StateIndex, item: Item<'grammar>) -> Vec<Example>;
}

} // verus!
