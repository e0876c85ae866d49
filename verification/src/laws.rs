//! What holds of every classification and every diagnosis.

use vstd::prelude::*;
use crate::answers::{classified, diagnosed, reported, Gathered};
use crate::automaton::{all_conflicts, Conflict, ConflictView, State};
use crate::classification::{
    ambiguity,
    classification,
    fits,
    first_pair,
    inlining,
    lemma_no_pair_none,
    lemma_some_pair_some_first,
    no_pair,
    ClassificationView,
    Pattern,
};
use crate::example::{lemma_shortest_first_is_sorted, shortest_first, ExampleView};
use crate::explain::gathered_classification;
use crate::grammar::{productions_of, ProductionView, Symbol};
use crate::lookahead::Lookahead;
use crate::message::MessageView;
use crate::trace::Tracer;

verus! {

/// Two classifications of one conflict, made from the same answers of the
/// search, are the same.
pub proof fn lemma_equal_answers_equal_classification<'grammar, T: Tracer>(
    grammar: Seq<ProductionView>,
    tracer: &T,
    states: Seq<State<'grammar>>,
    lookahead: Lookahead,
    conflict: Conflict<'grammar>,
    answers: Gathered,
    first: ClassificationView,
    second: ClassificationView,
)
    requires
        classified(grammar, tracer, states, lookahead, conflict, answers, first),
        classified(grammar, tracer, states, lookahead, conflict, answers, second),
    ensures
        first == second,
{
}

/// Two reports on the same grammar and automaton, made from the same
/// answers of the search, hold the same diagnoses in the same order.
pub proof fn lemma_equal_answers_equal_reports<'grammar, T: Tracer>(
    grammar: Seq<ProductionView>,
    tracer: &T,
    states: Seq<State<'grammar>>,
    answers: Seq<Gathered>,
    first: Seq<MessageView>,
    second: Seq<MessageView>,
)
    requires
        reported(grammar, tracer, states, answers, first),
        reported(grammar, tracer, states, answers, second),
    ensures
        first == second,
{
    assert forall|k: int| 0 <= k < first.len() implies first[k] == second[k] by {
        let conflicts = all_conflicts(states);
        assert(diagnosed(
            grammar,
            tracer,
            states,
            conflicts[k].0,
            conflicts[k].1,
            answers[k],
            first[k],
        ));
        assert(diagnosed(
            grammar,
            tracer,
            states,
            conflicts[k].0,
            conflicts[k].1,
            answers[k],
            second[k],
        ));
    }
    assert(first =~= second);
}

/// Some pair shows the pattern exactly where the search names a first one.
pub proof fn lemma_first_pair_iff_some_pair(
    pattern: Pattern,
    actions: Seq<ExampleView>,
    reduces: Seq<ExampleView>,
)
    ensures
        first_pair(pattern, actions, reduces) is None <==> no_pair(pattern, actions, reduces),
{
    if no_pair(pattern, actions, reduces) {
        lemma_no_pair_none(pattern, actions, reduces);
    } else {
        let (k, l) = choose|k: int, l: int|
            0 <= k < actions.len() && 0 <= l < reduces.len() && fits(
                pattern,
                #[trigger] actions[k],
                #[trigger] reduces[l],
            );
        let _ = lemma_some_pair_some_first(pattern, actions, reduces, k, l);
    }
}

/// A conflict is classified as a precedence error only where its action is
/// a shift, the lookahead is a terminal `l`, and its production is exactly
/// `T = T l T` for its own nonterminal `T`, which is the one named. Where a
/// pair of examples is the same input and the conflict has any other
/// shape, it is classified as a plain ambiguity.
pub proof fn lemma_precedence_specificity(
    grammar: Seq<ProductionView>,
    lookahead: Lookahead,
    conflict: ConflictView,
    actions: Seq<ExampleView>,
    reduces: Seq<ExampleView>,
)
    ensures
        classification(grammar, lookahead, conflict, actions, reduces) is Precedence ==> {
            &&& conflict.action is Shift
            &&& lookahead is Terminal
            &&& conflict.production.symbols =~= seq![
                Symbol::Nonterminal(conflict.production.nonterminal),
                Symbol::Terminal(lookahead->Terminal_0),
                Symbol::Nonterminal(conflict.production.nonterminal),
            ]
            &&& classification(
                grammar,
                lookahead,
                conflict,
                actions,
                reduces,
            )->Precedence_nonterminal == conflict.production.nonterminal
        },
        !no_pair(Pattern::SameInput, actions, reduces) && !({
            &&& conflict.action is Shift
            &&& lookahead is Terminal
            &&& conflict.production.symbols =~= seq![
                Symbol::Nonterminal(conflict.production.nonterminal),
                Symbol::Terminal(lookahead->Terminal_0),
                Symbol::Nonterminal(conflict.production.nonterminal),
            ]
        }) ==> classification(grammar, lookahead, conflict, actions, reduces) is Ambiguity,
{
    lemma_first_pair_iff_some_pair(Pattern::SameInput, actions, reduces);
}

/// A conflict is classified as one that `symbol?` resolves only where the
/// nonterminal named has exactly two productions, one empty and one of the
/// single symbol named. Where no pair of examples is the same input, some
/// pair is an inlining candidate, and the nonterminal has any other
/// productions, inlining is suggested.
pub proof fn lemma_suggest_question_specificity(
    grammar: Seq<ProductionView>,
    lookahead: Lookahead,
    conflict: ConflictView,
    actions: Seq<ExampleView>,
    reduces: Seq<ExampleView>,
)
    ensures
        match classification(grammar, lookahead, conflict, actions, reduces) {
            ClassificationView::SuggestQuestion { nonterminal, symbol, .. } => {
                let productions = productions_of(grammar, nonterminal);
                &&& productions.len() == 2
                &&& (productions[0].symbols.len() == 0 && productions[1].symbols =~= seq![symbol])
                    || (productions[1].symbols.len() == 0 && productions[0].symbols
                    =~= seq![symbol])
            },
            ClassificationView::SuggestInline { nonterminal, .. } => {
                let productions = productions_of(grammar, nonterminal);
                !(productions.len() == 2 && ((productions[0].symbols.len() == 0
                    && productions[1].symbols.len() == 1) || (productions[1].symbols.len() == 0
                    && productions[0].symbols.len() == 1)))
            },
            _ => true,
        },
        no_pair(Pattern::SameInput, actions, reduces) && !no_pair(Pattern::Inline, actions, reduces)
            ==> classification(grammar, lookahead, conflict, actions, reduces) is SuggestQuestion
            || classification(grammar, lookahead, conflict, actions, reduces) is SuggestInline,
{
    lemma_first_pair_iff_some_pair(Pattern::SameInput, actions, reduces);
    lemma_first_pair_iff_some_pair(Pattern::Inline, actions, reduces);
}

/// Where no pair of examples is the same input and none is an inlining
/// candidate, but both sides have examples, the first example of each side
/// is cited for want of lookahead.
pub proof fn lemma_fallback_ordering(
    grammar: Seq<ProductionView>,
    lookahead: Lookahead,
    conflict: ConflictView,
    actions: Seq<ExampleView>,
    reduces: Seq<ExampleView>,
)
    requires
        no_pair(Pattern::SameInput, actions, reduces),
        no_pair(Pattern::Inline, actions, reduces),
        actions.len() > 0,
        reduces.len() > 0,
    ensures
        classification(grammar, lookahead, conflict, actions, reduces) == (
        ClassificationView::InsufficientLookahead { action: actions[0], reduce: reduces[0] }),
        ambiguity(lookahead, conflict, actions, reduces) is None,
        inlining(grammar, actions, reduces) is None,
{
    lemma_no_pair_none(Pattern::SameInput, actions, reduces);
    lemma_no_pair_none(Pattern::Inline, actions, reduces);
}

/// Where a side has no example, nothing is cited.
pub proof fn lemma_empty_side_is_naive(
    grammar: Seq<ProductionView>,
    lookahead: Lookahead,
    conflict: ConflictView,
    actions: Seq<ExampleView>,
    reduces: Seq<ExampleView>,
)
    requires
        actions.len() == 0 || reduces.len() == 0,
    ensures
        classification(grammar, lookahead, conflict, actions, reduces) == ClassificationView::Naive,
        gathered_classification(grammar, lookahead, conflict, actions, reduces)
            == ClassificationView::Naive,
{
    lemma_no_pair_none(Pattern::SameInput, actions, reduces);
    lemma_no_pair_none(Pattern::Inline, actions, reduces);
    lemma_shortest_first_is_sorted(actions);
    lemma_shortest_first_is_sorted(reduces);
    lemma_no_pair_none(Pattern::SameInput, shortest_first(actions), shortest_first(reduces));
    lemma_no_pair_none(Pattern::Inline, shortest_first(actions), shortest_first(reduces));
}

} // verus!
