//! The finished LR(1) automaton as the diagnosis reads it: items, states,
//! and the conflicts that table construction left unresolved.

use vstd::prelude::*;
use crate::grammar::{Production, ProductionView, Symbol};
use crate::lookahead::Lookahead;

verus! {

/// The position of a state in the automaton.
#[derive(Clone, Copy, Debug, PartialEq, Eq, Hash, Structural)]
pub struct StateIndex(pub usize);

/// A production with a dot in it and the lookahead it waits for.
#[derive(Clone, Copy, Debug, PartialEq, Eq)]
pub struct Item<'grammar> {
    pub production: &'grammar Production,
    pub index: usize,
    pub lookahead: Lookahead,
}

/// An item without its lookahead.
#[derive(Clone, Copy, Debug, PartialEq, Eq)]
pub struct LR0Item<'grammar> {
    pub production: &'grammar Production,
    pub index: usize,
}

pub struct ItemView {
    pub production: ProductionView,
    pub index: usize,
    pub lookahead: Lookahead,
}

pub struct LR0ItemView {
    pub production: ProductionView,
    pub index: usize,
}

impl ItemView {
    /// Whether the dot stands before a symbol.
    pub open spec fn can_shift(self) -> bool {
        self.index < self.production.symbols.len()
    }

    /// Whether the dot stands at the end.
    pub open spec fn can_reduce(self) -> bool {
        self.index >= self.production.symbols.len()
    }

    /// Whether the dot stands right before `symbol`.
    pub open spec fn shifts(self, symbol: Symbol) -> bool {
        self.can_shift() && self.production.symbols[self.index as int] == symbol
    }

    /// The item without its lookahead.
    pub open spec fn to_lr0(self) -> LR0ItemView {
        LR0ItemView { production: self.production, index: self.index }
    }
}

impl<'grammar> View for Item<'grammar> {
    type V = ItemView;

    open spec fn view(&self) -> ItemView {
        ItemView { production: self.production@, index: self.index, lookahead: self.lookahead }
    }
}

impl<'grammar> View for LR0Item<'grammar> {
    type V = LR0ItemView;

    open spec fn view(&self) -> LR0ItemView {
        LR0ItemView { production: self.production@, index: self.index }
    }
}

impl<'grammar> Item<'grammar> {
    /// Whether the dot stands before a symbol.
    pub fn can_shift(&self) -> (r: bool)
        ensures
            r == self@.can_shift(),
    {
        self.index < self.production.symbols.len()
    }

    /// Whether the dot stands at the end.
    pub fn can_reduce(&self) -> (r: bool)
        ensures
            r == self@.can_reduce(),
    {
        self.index >= self.production.symbols.len()
    }

    /// The item without its lookahead.
    pub fn to_lr0(&self) -> (r: LR0Item<'grammar>)
        ensures
            r@ == self@.to_lr0(),
    {
        LR0Item { production: self.production, index: self.index }
    }

    /// The completed item of `production` for `lookahead`: its dot stands
    /// behind the last symbol.
    pub fn completed(production: &'grammar Production, lookahead: Lookahead) -> (r: Item<'grammar>)
        ensures
            r == (Item { production, index: production.symbols.len(), lookahead }),
            r@ == completed_item(production@, lookahead),
    {
        Item { production, index: production.symbols.len(), lookahead }
    }
}

/// The completed item of `production` for `lookahead`.
pub open spec fn completed_item(production: ProductionView, lookahead: Lookahead) -> ItemView {
    ItemView { production, index: production.symbols.len() as usize, lookahead }
}

impl<'grammar> LR0Item<'grammar> {
    /// Whether two items are the same production with the dot at the same
    /// place.
    pub fn same_as(&self, other: &LR0Item<'grammar>) -> (r: bool)
        ensures
            r == (self@ == other@),
    {
        self.index == other.index && self.production.same_as(other.production)
    }
}

/// What the automaton may do on a lookahead.
#[derive(Clone, Copy, Debug, PartialEq, Eq)]
pub enum Action<'grammar> {
    Shift(StateIndex),
    Reduce(&'grammar Production),
}

pub enum ActionView {
    Shift(StateIndex),
    Reduce(ProductionView),
}

impl<'grammar> View for Action<'grammar> {
    type V = ActionView;

    open spec fn view(&self) -> ActionView {
        match *self {
            Action::Shift(state) => ActionView::Shift(state),
            Action::Reduce(production) => ActionView::Reduce(production@),
        }
    }
}

/// Two legal moves in one state on one lookahead: the reduction of
/// `production`, and `action`.
#[derive(Clone, Copy, Debug, PartialEq, Eq)]
pub struct Conflict<'grammar> {
    pub state: StateIndex,
    pub production: &'grammar Production,
    pub action: Action<'grammar>,
}

pub struct ConflictView {
    pub state: StateIndex,
    pub production: ProductionView,
    pub action: ActionView,
}

impl<'grammar> View for Conflict<'grammar> {
    type V = ConflictView;

    open spec fn view(&self) -> ConflictView {
        ConflictView { state: self.state, production: self.production@, action: self.action@ }
    }
}

/// The conflicts that one state has on one lookahead, in the order in which
/// they were registered.
#[derive(Debug, PartialEq, Eq)]
pub struct LookaheadConflicts<'grammar> {
    pub lookahead: Lookahead,
    pub conflicts: Vec<Conflict<'grammar>>,
}

pub struct LookaheadConflictsView {
    pub lookahead: Lookahead,
    pub conflicts: Seq<ConflictView>,
}

impl<'grammar> View for LookaheadConflicts<'grammar> {
    type V = LookaheadConflictsView;

    open spec fn view(&self) -> LookaheadConflictsView {
        LookaheadConflictsView {
            lookahead: self.lookahead,
            conflicts: self.conflicts@.map_values(|c: Conflict<'grammar>| c@),
        }
    }
}

/// One state of the automaton.
#[derive(Debug, PartialEq, Eq)]
pub struct State<'grammar> {
    pub index: StateIndex,
    pub items: Vec<Item<'grammar>>,
    pub conflicts: Vec<LookaheadConflicts<'grammar>>,
}

pub struct StateView {
    pub index: StateIndex,
    pub items: Seq<ItemView>,
    pub conflicts: Seq<LookaheadConflictsView>,
}

impl<'grammar> View for State<'grammar> {
    type V = StateView;

    open spec fn view(&self) -> StateView {
        StateView {
            index: self.index,
            items: self.items@.map_values(|i: Item<'grammar>| i@),
            conflicts: self.conflicts@.map_values(|c: LookaheadConflicts<'grammar>| c@),
        }
    }
}

/// The views of the states of an automaton.
pub open spec fn state_views<'grammar>(states: Seq<State<'grammar>>) -> Seq<StateView> {
    states.map_values(|s: State<'grammar>| s@)
}

/// The conflict can be diagnosed: its state is one of `states`, and where
/// its action is a shift, the lookahead is a terminal (the end of the input
/// is never shifted).
pub open spec fn conflict_in_reach(states: Seq<StateView>, lookahead: Lookahead, conflict: ConflictView) -> bool {
    &&& conflict.state.0 < states.len()
    &&& conflict.action is Shift ==> lookahead is Terminal
}

/// Every conflict of `state` can be diagnosed, and no lookahead has two
/// entries.
pub open spec fn state_well_formed(states: Seq<StateView>, state: StateView) -> bool {
    &&& forall|e: int, c: int|
        0 <= e < state.conflicts.len() && 0 <= c < state.conflicts[e].conflicts.len()
            ==> conflict_in_reach(
            states,
            state.conflicts[e].lookahead,
            #[trigger] state.conflicts[e].conflicts[c],
        )
    &&& forall|e: int, f: int|
        0 <= e < f < state.conflicts.len() ==> (#[trigger] state.conflicts[e]).lookahead != (
        #[trigger] state.conflicts[f]).lookahead
}

/// Every state is well formed.
pub open spec fn automaton_well_formed(states: Seq<StateView>) -> bool {
    forall|s: int| 0 <= s < states.len() ==> state_well_formed(states, #[trigger] states[s])
}

/// The conflicts of one entry, each with the entry's lookahead.
pub open spec fn entry_conflicts<'grammar>(entry: LookaheadConflicts<'grammar>) -> Seq<
    (Lookahead, Conflict<'grammar>),
> {
    entry.conflicts@.map_values(|c: Conflict<'grammar>| (entry.lookahead, c))
}

/// The conflicts of one state, each with its lookahead: entry by entry, and
/// within an entry in the order of registration.
pub open spec fn state_conflicts<'grammar>(state: State<'grammar>) -> Seq<
    (Lookahead, Conflict<'grammar>),
> {
    state.conflicts@.map_values(|e: LookaheadConflicts<'grammar>| entry_conflicts(e)).flatten()
}

/// The conflicts of the automaton, each with its lookahead: state by state
/// in the order of the states.
pub open spec fn all_conflicts<'grammar>(states: Seq<State<'grammar>>) -> Seq<
    (Lookahead, Conflict<'grammar>),
> {
    states.map_values(|s: State<'grammar>| state_conflicts(s)).flatten()
}

/// What table construction hands over when it fails: the states, with
/// their conflicts.
#[derive(Debug, PartialEq, Eq)]
pub struct TableConstructionError<'grammar> {
    pub states: Vec<State<'grammar>>,
}

impl<'grammar> TableConstructionError<'grammar> {
    /// Every conflict can be diagnosed, and no state has two entries for
    /// one lookahead.
    pub open spec fn well_formed(&self) -> bool {
        automaton_well_formed(state_views(self.states@))
    }

    /// Whether every conflict can be diagnosed and no state has two entries
    /// for one lookahead.
    pub fn is_well_formed(&self) -> (r: bool)
        ensures
            r == self.well_formed(),
    {
        let ghost states = state_views(self.states@);
        let mut s: usize = 0;
        while s < self.states.len()
            invariant
                s <= self.states.len(),
                states == state_views(self.states@),
                forall|t: int| 0 <= t < s ==> state_well_formed(states, #[trigger] states[t]),
            decreases self.states.len() - s,
        {
            let state = &self.states[s];
            assert(states[s as int] == state@);
            let mut e: usize = 0;
            while e < state.conflicts.len()
                invariant
                    e <= state.conflicts.len(),
                    s < self.states.len(),
                    states == state_views(self.states@),
                    states[s as int] == state@,
                    forall|d: int, c: int|
                        0 <= d < e && 0 <= c < state@.conflicts[d].conflicts.len()
                            ==> conflict_in_reach(
                            states,
                            state@.conflicts[d].lookahead,
                            #[trigger] state@.conflicts[d].conflicts[c],
                        ),
                    forall|d: int, f: int|
                        0 <= d < f < e ==> (#[trigger] state@.conflicts[d]).lookahead != (
                        #[trigger] state@.conflicts[f]).lookahead,
                decreases state.conflicts.len() - e,
            {
                let entry = &state.conflicts[e];
                assert(state@.conflicts[e as int] == entry@);
                let mut d: usize = 0;
                while d < e
                    invariant
                        d <= e,
                        e < state.conflicts.len(),
                        s < self.states.len(),
                        states == state_views(self.states@),
                        states[s as int] == state@,
                        state@.conflicts[e as int] == entry@,
                        forall|b: int|
                            0 <= b < d ==> (#[trigger] state@.conflicts[b]).lookahead
                                != entry@.lookahead,
                    decreases e - d,
                {
                    assert(state@.conflicts[d as int] == state.conflicts@[d as int]@);
                    if state.conflicts[d].lookahead == entry.lookahead {
                        assert(!state_well_formed(states, states[s as int])) by {
                            assert(state@.conflicts[d as int].lookahead
                                == state@.conflicts[e as int].lookahead);
                        }
                        return false;
                    }
                    d += 1;
                }
                let mut c: usize = 0;
                while c < entry.conflicts.len()
                    invariant
                        c <= entry.conflicts.len(),
                        e < state.conflicts.len(),
                        s < self.states.len(),
                        states == state_views(self.states@),
                        states[s as int] == state@,
                        state@.conflicts[e as int] == entry@,
                        forall|b: int|
                            0 <= b < c ==> conflict_in_reach(
                                states,
                                entry@.lookahead,
                                #[trigger] entry@.conflicts[b],
                            ),
                    decreases entry.conflicts.len() - c,
                {
                    let conflict = &entry.conflicts[c];
                    assert(entry@.conflicts[c as int] == conflict@);
                    let shifts_end = match (conflict.action, entry.lookahead) {
                        (Action::Shift(_), Lookahead::EOF) => true,
                        _ => false,
                    };
                    if conflict.state.0 >= self.states.len() || shifts_end {
                        assert(!state_well_formed(states, states[s as int])) by {
                            assert(!conflict_in_reach(
                                states,
                                state@.conflicts[e as int].lookahead,
                                state@.conflicts[e as int].conflicts[c as int],
                            ));
                        }
                        return false;
                    }
                    c += 1;
                }
                e += 1;
            }
            s += 1;
        }
        true
    }
}

} // verus!
