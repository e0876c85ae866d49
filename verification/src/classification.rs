//! What a conflict is taken to be, and the rules that decide it from the
//! examples gathered for its two sides.

use vstd::prelude::*;
use crate::automaton::ConflictView;
use crate::example::{Example, ExampleView};
use crate::grammar::{productions_of, NonterminalId, ProductionView, Symbol, TerminalId};
use crate::lookahead::Lookahead;

verus! {

/// The kind of a conflict, with the examples that show it.
#[derive(Debug, PartialEq, Eq)]
pub enum ConflictClassification {
    /// The grammar is ambiguous: the same symbols can be reduced in two
    /// distinct ways.
    Ambiguity { action: Example, reduce: Example },
    /// The grammar is ambiguous, and it looks like a precedence error: the
    /// reduction is to a nonterminal `T`, and the shift is of a symbol that
    /// stands between two `T`.
    Precedence { shift: Example, reduce: Example, nonterminal: NonterminalId },
    /// Inlining `nonterminal` would help: both examples have two levels of
    /// reductions, and the same symbols follow the inner one.
    SuggestInline { shift: Example, reduce: Example, nonterminal: NonterminalId },
    /// Like the previous, but `nonterminal` is `symbol` or nothing, so that
    /// `symbol?` can take its place.
    SuggestQuestion { shift: Example, reduce: Example, nonterminal: NonterminalId, symbol: Symbol },
    /// No more can be said than that one token of lookahead does not
    /// suffice.
    InsufficientLookahead { action: Example, reduce: Example },
    /// Nothing can be said.
    Naive,
}

/// What a classification is, as a mathematical value.
pub enum ClassificationView {
    Ambiguity { action: ExampleView, reduce: ExampleView },
    Precedence { shift: ExampleView, reduce: ExampleView, nonterminal: NonterminalId },
    SuggestInline { shift: ExampleView, reduce: ExampleView, nonterminal: NonterminalId },
    SuggestQuestion {
        shift: ExampleView,
        reduce: ExampleView,
        nonterminal: NonterminalId,
        symbol: Symbol,
    },
    InsufficientLookahead { action: ExampleView, reduce: ExampleView },
    Naive,
}

impl View for ConflictClassification {
    type V = ClassificationView;

    open spec fn view(&self) -> ClassificationView {
        match self {
            ConflictClassification::Ambiguity { action, reduce } => ClassificationView::Ambiguity {
                action: action@,
                reduce: reduce@,
            },
            ConflictClassification::Precedence {
                shift,
                reduce,
                nonterminal,
            } => ClassificationView::Precedence {
                shift: shift@,
                reduce: reduce@,
                nonterminal: *nonterminal,
            },
            ConflictClassification::SuggestInline {
                shift,
                reduce,
                nonterminal,
            } => ClassificationView::SuggestInline {
                shift: shift@,
                reduce: reduce@,
                nonterminal: *nonterminal,
            },
            ConflictClassification::SuggestQuestion {
                shift,
                reduce,
                nonterminal,
                symbol,
            } => ClassificationView::SuggestQuestion {
                shift: shift@,
                reduce: reduce@,
                nonterminal: *nonterminal,
                symbol: *symbol,
            },
            ConflictClassification::InsufficientLookahead {
                action,
                reduce,
            } => ClassificationView::InsufficientLookahead { action: action@, reduce: reduce@ },
            ConflictClassification::Naive => ClassificationView::Naive,
        }
    }
}

/// The view of a classification that may be missing.
pub open spec fn found_view(found: Option<ConflictClassification>) -> Option<ClassificationView> {
    match found {
        Some(classification) => Some(classification@),
        None => None,
    }
}

/// What a pair of examples is searched for.
#[derive(Clone, Copy, Debug, PartialEq, Eq, Structural)]
pub enum Pattern {
    /// The two examples are the same input, read up to the same place.
    SameInput,
    /// Both examples have two reductions, the two of the reduce example are
    /// to different nonterminals, and the same symbols follow the first
    /// reduction in both.
    Inline,
}

/// Both examples show the same symbols with the cursor at the same place.
pub open spec fn same_input(action: ExampleView, reduce: ExampleView) -> bool {
    action.symbols == reduce.symbols && action.cursor == reduce.cursor
}

/// Both examples have two reductions, those of `reduce` are to different
/// nonterminals, and the symbols behind the first reduction are the same in
/// both.
pub open spec fn inline_candidate(action: ExampleView, reduce: ExampleView) -> bool {
    &&& action.reductions.len() == 2
    &&& reduce.reductions.len() == 2
    &&& reduce.reductions[0].nonterminal != reduce.reductions[1].nonterminal
    &&& action.inner_suffix() == reduce.inner_suffix()
}

/// Whether the pair shows `pattern`.
pub open spec fn fits(pattern: Pattern, action: ExampleView, reduce: ExampleView) -> bool {
    match pattern {
        Pattern::SameInput => same_input(action, reduce),
        Pattern::Inline => inline_candidate(action, reduce),
    }
}

/// The pair `(i, j)` is met before the pair `(k, l)` when all pairs are
/// gone through row by row.
pub open spec fn comes_before(i: int, j: int, k: int, l: int) -> bool {
    i < k || (i == k && j < l)
}

/// `(i, j)` is the first pair of an action example and a reduce example
/// that shows `pattern`.
pub open spec fn is_first_pair(
    pattern: Pattern,
    actions: Seq<ExampleView>,
    reduces: Seq<ExampleView>,
    i: int,
    j: int,
) -> bool {
    &&& 0 <= i < actions.len()
    &&& 0 <= j < reduces.len()
    &&& fits(pattern, actions[i], reduces[j])
    &&& forall|k: int, l: int|
        0 <= k < actions.len() && 0 <= l < reduces.len() && comes_before(k, l, i, j) ==> !fits(
            pattern,
            #[trigger] actions[k],
            #[trigger] reduces[l],
        )
}

/// No pair of an action example and a reduce example shows `pattern`.
pub open spec fn no_pair(pattern: Pattern, actions: Seq<ExampleView>, reduces: Seq<ExampleView>) -> bool {
    forall|k: int, l: int|
        0 <= k < actions.len() && 0 <= l < reduces.len() ==> !fits(
            pattern,
            #[trigger] actions[k],
            #[trigger] reduces[l],
        )
}

/// The first pair that shows `pattern`, if any does.
pub open spec fn first_pair(
    pattern: Pattern,
    actions: Seq<ExampleView>,
    reduces: Seq<ExampleView>,
) -> Option<(int, int)> {
    if exists|p: (int, int)| is_first_pair(pattern, actions, reduces, p.0, p.1) {
        Some(choose|p: (int, int)| is_first_pair(pattern, actions, reduces, p.0, p.1))
    } else {
        None
    }
}

/// The production is `T = T l T`, with `T` its own nonterminal and `l` the
/// terminal `terminal`.
pub open spec fn is_operator_shape(production: ProductionView, terminal: TerminalId) -> bool {
    &&& production.symbols.len() == 3
    &&& production.symbols[0] == Symbol::Nonterminal(production.nonterminal)
    &&& production.symbols[1] == Symbol::Terminal(terminal)
    &&& production.symbols[2] == Symbol::Nonterminal(production.nonterminal)
}

/// The conflict is between shifting a terminal `l` and reducing
/// `T = T l T`.
pub open spec fn looks_like_precedence(lookahead: Lookahead, conflict: ConflictView) -> bool {
    &&& conflict.action is Shift
    &&& match lookahead {
        Lookahead::Terminal(terminal) => is_operator_shape(conflict.production, terminal),
        Lookahead::EOF => false,
    }
}

/// What an ambiguous pair is classified as.
pub open spec fn ambiguity_of(
    lookahead: Lookahead,
    conflict: ConflictView,
    action: ExampleView,
    reduce: ExampleView,
) -> ClassificationView {
    if looks_like_precedence(lookahead, conflict) {
        ClassificationView::Precedence {
            shift: action,
            reduce,
            nonterminal: conflict.production.nonterminal,
        }
    } else {
        ClassificationView::Ambiguity { action, reduce }
    }
}

/// The symbol `s` where the productions are the two of `X = s | ()`, in
/// either order.
pub open spec fn optional_symbol(productions: Seq<ProductionView>) -> Option<Symbol> {
    if productions.len() != 2 {
        None
    } else if productions[0].symbols.len() == 0 && productions[1].symbols.len() == 1 {
        Some(productions[1].symbols[0])
    } else if productions[1].symbols.len() == 0 && productions[0].symbols.len() == 1 {
        Some(productions[0].symbols[0])
    } else {
        None
    }
}

/// What an inlining candidate is classified as.
pub open spec fn inline_of(grammar: Seq<ProductionView>, action: ExampleView, reduce: ExampleView) -> ClassificationView
    recommends
        reduce.reductions.len() > 0,
{
    let nonterminal = reduce.reductions[0].nonterminal;
    match optional_symbol(productions_of(grammar, nonterminal)) {
        Some(symbol) => ClassificationView::SuggestQuestion {
            shift: action,
            reduce,
            nonterminal,
            symbol,
        },
        None => ClassificationView::SuggestInline { shift: action, reduce, nonterminal },
    }
}

/// Ambiguity or precedence, by the first pair of examples that are the same
/// input; `None` where no pair is.
pub open spec fn ambiguity(
    lookahead: Lookahead,
    conflict: ConflictView,
    actions: Seq<ExampleView>,
    reduces: Seq<ExampleView>,
) -> Option<ClassificationView> {
    match first_pair(Pattern::SameInput, actions, reduces) {
        Some((i, j)) => Some(ambiguity_of(lookahead, conflict, actions[i], reduces[j])),
        None => None,
    }
}

/// A suggestion to inline, by the first pair of examples that is an
/// inlining candidate; `None` where no pair is.
pub open spec fn inlining(
    grammar: Seq<ProductionView>,
    actions: Seq<ExampleView>,
    reduces: Seq<ExampleView>,
) -> Option<ClassificationView> {
    match first_pair(Pattern::Inline, actions, reduces) {
        Some((i, j)) => Some(inline_of(grammar, actions[i], reduces[j])),
        None => None,
    }
}

/// The first example of each side, where both sides have one.
pub open spec fn fallback(actions: Seq<ExampleView>, reduces: Seq<ExampleView>) -> ClassificationView {
    if actions.len() > 0 && reduces.len() > 0 {
        ClassificationView::InsufficientLookahead { action: actions[0], reduce: reduces[0] }
    } else {
        ClassificationView::Naive
    }
}

/// The classification of a conflict from the examples of its two sides,
/// each list taken in the order given: ambiguity first, then inlining, then
/// the fallback.
pub open spec fn classification(
    grammar: Seq<ProductionView>,
    lookahead: Lookahead,
    conflict: ConflictView,
    actions: Seq<ExampleView>,
    reduces: Seq<ExampleView>,
) -> ClassificationView {
    match ambiguity(lookahead, conflict, actions, reduces) {
        Some(found) => found,
        None => match inlining(grammar, actions, reduces) {
            Some(found) => found,
            None => fallback(actions, reduces),
        },
    }
}

/// At most one pair is the first to show a pattern.
pub proof fn lemma_first_pair_is_unique(
    pattern: Pattern,
    actions: Seq<ExampleView>,
    reduces: Seq<ExampleView>,
    i: int,
    j: int,
    k: int,
    l: int,
)
    requires
        is_first_pair(pattern, actions, reduces, i, j),
        is_first_pair(pattern, actions, reduces, k, l),
    ensures
        i == k,
        j == l,
{
    if comes_before(i, j, k, l) {
        assert(!fits(pattern, actions[i], reduces[j]));
    } else if comes_before(k, l, i, j) {
        assert(!fits(pattern, actions[k], reduces[l]));
    }
}

/// The pair that is first is the one that the search names.
pub proof fn lemma_first_pair_found(
    pattern: Pattern,
    actions: Seq<ExampleView>,
    reduces: Seq<ExampleView>,
    i: int,
    j: int,
)
    requires
        is_first_pair(pattern, actions, reduces, i, j),
    ensures
        first_pair(pattern, actions, reduces) == Some((i, j)),
{
    let witness = (i, j);
    assert(is_first_pair(pattern, actions, reduces, witness.0, witness.1));
    let p = choose|p: (int, int)| is_first_pair(pattern, actions, reduces, p.0, p.1);
    lemma_first_pair_is_unique(pattern, actions, reduces, i, j, p.0, p.1);
}

/// Where no pair shows the pattern, the search names none.
pub proof fn lemma_no_pair_none(pattern: Pattern, actions: Seq<ExampleView>, reduces: Seq<ExampleView>)
    requires
        no_pair(pattern, actions, reduces),
    ensures
        first_pair(pattern, actions, reduces) is None,
{
    assert forall|p: (int, int)| !is_first_pair(pattern, actions, reduces, p.0, p.1) by {
        if 0 <= p.0 < actions.len() && 0 <= p.1 < reduces.len() {
            assert(!fits(pattern, actions[p.0], reduces[p.1]));
        }
    }
}

/// Where some pair shows the pattern, some pair is the first to do so.
pub proof fn lemma_some_pair_some_first(
    pattern: Pattern,
    actions: Seq<ExampleView>,
    reduces: Seq<ExampleView>,
    i: int,
    j: int,
) -> (first: (int, int))
    requires
        0 <= i < actions.len(),
        0 <= j < reduces.len(),
        fits(pattern, actions[i], reduces[j]),
    ensures
        is_first_pair(pattern, actions, reduces, first.0, first.1),
        first_pair(pattern, actions, reduces) == Some(first),
    decreases i, j,
{
    if exists|k: int, l: int|
        0 <= k < actions.len() && 0 <= l < reduces.len() && comes_before(k, l, i, j) && fits(
            pattern,
            #[trigger] actions[k],
            #[trigger] reduces[l],
        ) {
        let (k, l) = choose|k: int, l: int|
            0 <= k < actions.len() && 0 <= l < reduces.len() && comes_before(k, l, i, j) && fits(
                pattern,
                #[trigger] actions[k],
                #[trigger] reduces[l],
            );
        lemma_some_pair_some_first(pattern, actions, reduces, k, l)
    } else {
        lemma_first_pair_found(pattern, actions, reduces, i, j);
        (i, j)
    }
}

} // verus!
