//! What the search answered, and what follows from its answers: the ties
//! between the examples that were gathered and the classification and the
//! diagnosis that were made of them.

use vstd::prelude::*;
use crate::automaton::{
    all_conflicts,
    state_views,
    Action,
    Conflict,
    Item,
    State,
    StateIndex,
};
use crate::classification::ClassificationView;
use crate::example::{example_views, Example};
use crate::explain::{diagnosis, gathered_classification};
use crate::gather::{group_views, shift_groups, ShiftGroup};
use crate::grammar::{Production, ProductionView};
use crate::lookahead::Lookahead;
use crate::message::MessageView;
use crate::trace::Tracer;

verus! {

/// The examples gathered for the two sides of a conflict.
pub struct Gathered {
    /// The examples of the conflicting action, a shift or a reduction.
    pub action_examples: Vec<Example>,
    /// The examples of the conflicting reduction.
    pub reduce_examples: Vec<Example>,
}

/// The answers laid end to end.
pub open spec fn end_to_end(found: Seq<Vec<Example>>) -> Seq<Example> {
    found.map_values(|answer: Vec<Example>| answer@).flatten()
}

/// One more answer goes behind those before it.
pub proof fn lemma_end_to_end_push(found: Seq<Vec<Example>>, answer: Vec<Example>)
    ensures
        end_to_end(found.push(answer)) == end_to_end(found) + answer@,
{
    let lists = found.map_values(|answer: Vec<Example>| answer@);
    assert(found.push(answer).map_values(|answer: Vec<Example>| answer@) =~= lists.push(answer@));
    lists.lemma_flatten_push(answer@);
}

/// `found` is what the search answers for the shift of `lookahead` in the
/// conflict's state: `groups` are the forms of the items of that state that
/// can shift `lookahead`, each once, in the order in which they first
/// occur, and `found` holds, for each of them, an answer of the search to
/// that form.
pub open spec fn shift_traces<'grammar, T: Tracer>(
    tracer: &T,
    states: Seq<State<'grammar>>,
    lookahead: Lookahead,
    conflict: Conflict<'grammar>,
    groups: Seq<ShiftGroup<'grammar>>,
    found: Seq<Vec<Example>>,
) -> bool {
    &&& group_views(groups) == shift_groups(
        state_views(states)[conflict.state.0 as int].items,
        lookahead->Terminal_0,
    )
    &&& found.len() == groups.len()
    &&& forall|k: int|
        0 <= k < found.len() ==> call_ensures(
            T::backtrace_shift,
            (tracer, conflict.state, groups[k].item),
            #[trigger] found[k],
        )
}

/// `examples` are the answers of the search for the shift of `lookahead`
/// in the conflict's state, one answer for each form of item that can
/// shift it, laid end to end.
pub open spec fn shift_answer<'grammar, T: Tracer>(
    tracer: &T,
    states: Seq<State<'grammar>>,
    lookahead: Lookahead,
    conflict: Conflict<'grammar>,
    examples: Seq<Example>,
) -> bool {
    exists|groups: Seq<ShiftGroup<'grammar>>, found: Seq<Vec<Example>>|
        #[trigger] shift_traces(tracer, states, lookahead, conflict, groups, found) && examples
            == end_to_end(found)
}

/// `examples` is an answer of the search for the reduction of `production`
/// on `lookahead` in `state`: it was asked for the item of `production`
/// with the dot behind its last symbol.
pub open spec fn reduce_answer<'grammar, T: Tracer>(
    tracer: &T,
    state: StateIndex,
    production: &'grammar Production,
    lookahead: Lookahead,
    examples: Vec<Example>,
) -> bool {
    call_ensures(
        T::backtrace_reduce,
        (tracer, state, (Item { production, index: production.symbols.len(), lookahead })),
        examples,
    )
}

/// The two lists are what the search answers for the two sides of the
/// conflict: the one for the reduction of the conflict's production, the
/// other for its action, a shift or the reduction of another production.
pub open spec fn gathered<'grammar, T: Tracer>(
    tracer: &T,
    states: Seq<State<'grammar>>,
    lookahead: Lookahead,
    conflict: Conflict<'grammar>,
    answers: Gathered,
) -> bool {
    &&& reduce_answer(
        tracer,
        conflict.state,
        conflict.production,
        lookahead,
        answers.reduce_examples,
    )
    &&& match conflict.action {
        Action::Shift(_) => shift_answer(
            tracer,
            states,
            lookahead,
            conflict,
            answers.action_examples@,
        ),
        Action::Reduce(production) => reduce_answer(
            tracer,
            conflict.state,
            production,
            lookahead,
            answers.action_examples,
        ),
    }
}

/// `found` is the classification of the conflict from `answers`, and
/// `answers` are what the search answered for the conflict.
pub open spec fn classified<'grammar, T: Tracer>(
    grammar: Seq<ProductionView>,
    tracer: &T,
    states: Seq<State<'grammar>>,
    lookahead: Lookahead,
    conflict: Conflict<'grammar>,
    answers: Gathered,
    found: ClassificationView,
) -> bool {
    &&& gathered(tracer, states, lookahead, conflict, answers)
    &&& found == gathered_classification(
        grammar,
        lookahead,
        conflict@,
        example_views(answers.action_examples@),
        example_views(answers.reduce_examples@),
    )
}

/// `message` is the diagnosis of the conflict from `answers`, and `answers`
/// are what the search answered for the conflict.
pub open spec fn diagnosed<'grammar, T: Tracer>(
    grammar: Seq<ProductionView>,
    tracer: &T,
    states: Seq<State<'grammar>>,
    lookahead: Lookahead,
    conflict: Conflict<'grammar>,
    answers: Gathered,
    message: MessageView,
) -> bool {
    &&& gathered(tracer, states, lookahead, conflict, answers)
    &&& message == diagnosis(
        grammar,
        state_views(states),
        lookahead,
        conflict@,
        example_views(answers.action_examples@),
        example_views(answers.reduce_examples@),
    )
}

/// `messages` are the diagnoses of all the conflicts of the automaton, in
/// the order of its conflicts, and `answers` are what the search answered
/// for each of them: the diagnosis at each place is made from the answers
/// at that place for the conflict at that place.
pub open spec fn reported<'grammar, T: Tracer>(
    grammar: Seq<ProductionView>,
    tracer: &T,
    states: Seq<State<'grammar>>,
    answers: Seq<Gathered>,
    messages: Seq<MessageView>,
) -> bool {
    let conflicts = all_conflicts(states);
    &&& answers.len() == conflicts.len()
    &&& messages.len() == conflicts.len()
    &&& forall|k: int|
        0 <= k < conflicts.len() ==> diagnosed(
            grammar,
            tracer,
            states,
            conflicts[k].0,
            conflicts[k].1,
            #[trigger] answers[k],
            messages[k],
        )
}

} // verus!
