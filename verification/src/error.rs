//! Error reporting: one diagnosis for each conflict of the automaton.

use vstd::prelude::*;
use vstd::slice::slice_subrange;
use crate::answers::{
    classified,
    reported,
    diagnosed,
    end_to_end,
    lemma_end_to_end_push,
    reduce_answer,
    shift_answer,
    shift_traces,
    Gathered,
};
use crate::automaton::{
    all_conflicts,
    automaton_well_formed,
    conflict_in_reach,
    entry_conflicts,
    state_conflicts,
    state_views,
    state_well_formed,
    Action,
    Conflict,
    Item,
    LookaheadConflicts,
    State,
    StateIndex,
    TableConstructionError,
};
use crate::classification::{
    ambiguity,
    found_view,
    inlining,
    ClassificationView,
    ConflictClassification,
    Pattern,
};
use crate::laws::lemma_empty_side_is_naive;
use crate::example::{example_views, sort_shortest_first, Example, ExampleSymbol};
use crate::gather::{group_shift_items, group_views, shift_groups, ShiftGroup};
use crate::search::find_first_pair;
use crate::explain::{
    ambiguity_message,
    ambiguity_sections,
    first_way,
    gathered_classification,
    message_for,
    item_nodes,
    naive_message,
    insufficient_lookahead_message,
    lookahead_sentence,
    not_lr1_sections,
    precedence_message,
    suggest_inline_message,
    suggest_question_message,
};
use crate::grammar::{production_views, Grammar, NonterminalId, Production, Symbol};
use crate::lookahead::Lookahead;
use crate::message::{
    message_views,
    quoted_symbol,
    wrapped_text,
    Builder,
    Content,
    ContentView,
    ExampleStyles,
    Message,
    Style,
};
use crate::trace::Tracer;

verus! {

/// What the diagnosis reads: the grammar, the states of the automaton, and
/// the search for examples.
pub struct ErrorReportingCx<'cx, 'grammar, T: Tracer> {
    pub grammar: &'grammar Grammar,
    pub states: &'cx [State<'grammar>],
    pub tracer: &'cx T,
}

impl<'cx, 'grammar, T: Tracer> ErrorReportingCx<'cx, 'grammar, T> {
    /// The context of these parts.
    pub fn new(grammar: &'grammar Grammar, states: &'cx [State<'grammar>], tracer: &'cx T) -> (r:
        Self)
        ensures
            r.grammar == grammar,
            r.states == states,
            r.tracer == tracer,
    {
        ErrorReportingCx { grammar, states, tracer }
    }

    /// The diagnosis of every conflict of the automaton: the states in
    /// their order, the entries of each state in their order, and the
    /// conflicts of each entry in the order of their registration. Each
    /// diagnosis is made from what the search answers for its conflict.
    pub fn report_errors(&self) -> (r: Vec<Message>)
        requires
            automaton_well_formed(state_views(self.states@)),
        ensures
            r@.len() == all_conflicts(self.states@).len(),
            exists|answers: Seq<Gathered>| #[trigger]
                reported(self.grammar@, self.tracer, self.states@, answers, message_views(r@)),
    {
        let ghost states = state_views(self.states@);
        let ghost per_state = self.states@.map_values(|s: State<'grammar>| state_conflicts(s));
        let mut messages: Vec<Message> = Vec::new();
        let ghost mut done: Seq<(Lookahead, Conflict<'grammar>)> = Seq::empty();
        let ghost mut answers: Seq<Gathered> = Seq::empty();
        let mut s: usize = 0;
        proof {
            assert(per_state.take(0) =~= Seq::<Seq<(Lookahead, Conflict<'grammar>)>>::empty());
        }
        while s < self.states.len()
            invariant
                s <= self.states.len(),
                automaton_well_formed(states),
                states == state_views(self.states@),
                per_state == self.states@.map_values(|s: State<'grammar>| state_conflicts(s)),
                done == per_state.take(s as int).flatten(),
                messages@.len() == done.len(),
                answers.len() == done.len(),
                forall|k: int|
                    0 <= k < messages@.len() ==> diagnosed(
                        self.grammar@,
                        self.tracer,
                        self.states@,
                        done[k].0,
                        done[k].1,
                        #[trigger] answers[k],
                        messages@[k]@,
                    ),
            decreases self.states.len() - s,
        {
            let state = &self.states[s];
            let ghost before_state = done;
            let ghost per_entry = state.conflicts@.map_values(
                |e: LookaheadConflicts<'grammar>| entry_conflicts(e),
            );
            proof {
                assert(states[s as int] == state@);
                assert(state_well_formed(states, states[s as int]));
                assert(per_entry.take(0) =~= Seq::<Seq<(Lookahead, Conflict<'grammar>)>>::empty());
                assert(before_state + per_entry.take(0).flatten() =~= before_state);
            }
            let mut e: usize = 0;
            while e < state.conflicts.len()
                invariant
                    e <= state.conflicts.len(),
                    states == state_views(self.states@),
                    state_well_formed(states, state@),
                    per_entry == state.conflicts@.map_values(
                        |e: LookaheadConflicts<'grammar>| entry_conflicts(e),
                    ),
                    done == before_state + per_entry.take(e as int).flatten(),
                    messages@.len() == done.len(),
                    answers.len() == done.len(),
                    forall|k: int|
                        0 <= k < messages@.len() ==> diagnosed(
                            self.grammar@,
                            self.tracer,
                            self.states@,
                            done[k].0,
                            done[k].1,
                            #[trigger] answers[k],
                            messages@[k]@,
                        ),
                decreases state.conflicts.len() - e,
            {
                let entry = &state.conflicts[e];
                let ghost before_entry = done;
                proof {
                    assert(state@.conflicts[e as int] == entry@);
                    assert(entry_conflicts(*entry).take(0) =~= Seq::<
                        (Lookahead, Conflict<'grammar>),
                    >::empty());
                    assert(before_entry + entry_conflicts(*entry).take(0) =~= before_entry);
                }
                let mut c: usize = 0;
                while c < entry.conflicts.len()
                    invariant
                        c <= entry.conflicts.len(),
                        e < state.conflicts.len(),
                        states == state_views(self.states@),
                        state_well_formed(states, state@),
                        state@.conflicts[e as int] == entry@,
                        done == before_entry + entry_conflicts(*entry).take(c as int),
                        messages@.len() == done.len(),
                        answers.len() == done.len(),
                        forall|k: int|
                            0 <= k < messages@.len() ==> diagnosed(
                                self.grammar@,
                                self.tracer,
                                self.states@,
                                done[k].0,
                                done[k].1,
                                #[trigger] answers[k],
                                messages@[k]@,
                            ),
                    decreases entry.conflicts.len() - c,
                {
                    let conflict = &entry.conflicts[c];
                    proof {
                        assert(entry@.conflicts[c as int] == conflict@);
                        assert(conflict_in_reach(
                            states,
                            state@.conflicts[e as int].lookahead,
                            state@.conflicts[e as int].conflicts[c as int],
                        ));
                    }
                    let message = self.report_error(entry.lookahead, conflict);
                    let ghost before = messages@;
                    let ghost before_answers = answers;
                    messages.push(message);
                    proof {
                        let pair = (entry.lookahead, *conflict);
                        let answer = choose|answer: Gathered| #[trigger]
                            diagnosed(
                                self.grammar@,
                                self.tracer,
                                self.states@,
                                entry.lookahead,
                                *conflict,
                                answer,
                                message@,
                            );
                        assert(entry_conflicts(*entry).take(c + 1) =~= entry_conflicts(
                            *entry,
                        ).take(c as int).push(pair));
                        done = done.push(pair);
                        answers = answers.push(answer);
                        assert(done =~= before_entry + entry_conflicts(*entry).take(c + 1));
                        assert forall|k: int| 0 <= k < messages@.len() implies diagnosed(
                            self.grammar@,
                            self.tracer,
                            self.states@,
                            done[k].0,
                            done[k].1,
                            #[trigger] answers[k],
                            messages@[k]@,
                        ) by {
                            if k < before.len() {
                                assert(messages@[k] == before[k]);
                                assert(answers[k] == before_answers[k]);
                            }
                        }
                    }
                    c += 1;
                }
                proof {
                    assert(entry_conflicts(*entry).take(c as int) =~= entry_conflicts(*entry));
                    assert(per_entry.take(e + 1) =~= per_entry.take(e as int).push(
                        entry_conflicts(*entry),
                    ));
                    per_entry.take(e as int).lemma_flatten_push(entry_conflicts(*entry));
                    assert(done =~= before_state + per_entry.take(e + 1).flatten());
                }
                e += 1;
            }
            proof {
                assert(per_entry.take(e as int) =~= per_entry);
                assert(per_state.take(s + 1) =~= per_state.take(s as int).push(
                    state_conflicts(*state),
                ));
                per_state.take(s as int).lemma_flatten_push(state_conflicts(*state));
            }
            s += 1;
        }
        proof {
            assert(per_state.take(s as int) =~= per_state);
            assert(reported(
                self.grammar@,
                self.tracer,
                self.states@,
                answers,
                message_views(messages@),
            ));
        }
        messages
    }

    /// The diagnosis of one conflict: the conflict is classified, and the
    /// classification explained.
    pub fn report_error(&self, lookahead: Lookahead, conflict: &Conflict<'grammar>) -> (r: Message)
        requires
            conflict_in_reach(state_views(self.states@), lookahead, conflict@),
        ensures
            exists|answers: Gathered| #[trigger]
                diagnosed(
                    self.grammar@,
                    self.tracer,
                    self.states@,
                    lookahead,
                    *conflict,
                    answers,
                    r@,
                ),
    {
        let classification = self.classify(lookahead, conflict);
        let ghost found = classification@;
        let r = self.report_classification(lookahead, conflict, classification);
        proof {
            let answers = choose|answers: Gathered| #[trigger]
                classified(
                    self.grammar@,
                    self.tracer,
                    self.states@,
                    lookahead,
                    *conflict,
                    answers,
                    found,
                );
            assert(diagnosed(
                self.grammar@,
                self.tracer,
                self.states@,
                lookahead,
                *conflict,
                answers,
                r@,
            ));
        }
        r
    }

    /// The diagnosis of a conflict that was classified as `classification`.
    pub fn report_classification(
        &self,
        lookahead: Lookahead,
        conflict: &Conflict<'grammar>,
        classification: ConflictClassification,
    ) -> (r: Message)
        requires
            conflict.state.0 < self.states@.len(),
        ensures
            r@ == message_for(state_views(self.states@), lookahead, conflict@, classification@),
    {
        match classification {
            ConflictClassification::Ambiguity { action, reduce } => {
                self.report_error_ambiguity(conflict, action, reduce)
            },
            ConflictClassification::Precedence { shift, reduce, nonterminal } => {
                self.report_error_precedence(conflict, shift, reduce, nonterminal)
            },
            ConflictClassification::SuggestInline { shift, reduce, nonterminal } => {
                self.report_error_suggest_inline(lookahead, conflict, shift, reduce, nonterminal)
            },
            ConflictClassification::SuggestQuestion { shift, reduce, nonterminal, symbol } => {
                self.report_error_suggest_question(
                    lookahead,
                    conflict,
                    shift,
                    reduce,
                    nonterminal,
                    symbol,
                )
            },
            ConflictClassification::InsufficientLookahead { action, reduce } => {
                self.report_error_insufficient_lookahead(lookahead, conflict, action, reduce)
            },
            ConflictClassification::Naive => self.report_error_naive(lookahead, conflict),
        }
    }

    /// The sections that every diagnosis of an ambiguity has.
    pub fn report_error_ambiguity_core(
        &self,
        conflict: &Conflict<'grammar>,
        shift: Example,
        reduce: Example,
    ) -> (r: Builder)
        ensures
            r@ == ambiguity_sections(shift@, reduce@),
    {
        let styles = ExampleStyles::ambig();
        let symbols = Builder::new().wrap_text(
            "The following symbols can be reduced in two ways:",
        ).push(Content::SymbolList { example: reduce.clone(), length: reduce.len(), styles }).lines();
        let one_way = Builder::new().wrap_text("They could be reduced like so:").push(
            Content::Picture { example: reduce, styles },
        ).lines();
        let other_way = Builder::new().wrap_text(
            "Alternatively, they could be reduced like so:",
        ).push(Content::Picture { example: shift, styles }).lines();
        let r = Builder::new().push(symbols).push(one_way).push(other_way);
        proof {
            let want = ambiguity_sections(shift@, reduce@);
            assert(symbols@->Lines_0 =~= want[0]->Lines_0);
            assert(one_way@->Lines_0 =~= want[1]->Lines_0);
            assert(other_way@->Lines_0 =~= want[2]->Lines_0);
            assert(r@ =~= want);
        }
        r
    }

    /// The diagnosis of an ambiguity.
    pub fn report_error_ambiguity(
        &self,
        conflict: &Conflict<'grammar>,
        shift: Example,
        reduce: Example,
    ) -> (r: Message)
        ensures
            r@ == ambiguity_message(conflict@, shift@, reduce@),
    {
        let body = self.report_error_ambiguity_core(conflict, shift, reduce).wrap_text(
            "LALRPOP does not yet support ambiguous grammars. See the LALRPOP manual for advice on making your grammar unambiguous.",
        );
        Message::new(
            conflict.production.span,
            Builder::new().text("Ambiguous grammar detected"),
            body,
        )
    }

    /// The diagnosis of an ambiguity that looks like a precedence error.
    pub fn report_error_precedence(
        &self,
        conflict: &Conflict<'grammar>,
        shift: Example,
        reduce: Example,
        nonterminal: NonterminalId,
    ) -> (r: Message)
        ensures
            r@ == precedence_message(conflict@, shift@, reduce@, nonterminal),
    {
        let advice = Builder::new().text("This looks like a precedence error related to").push(
            Content::Symbol(Symbol::Nonterminal(nonterminal)),
        ).verbatimed().punctuated(".").text(
            "See the LALRPOP manual for advice on encoding precedence.",
        );
        let ghost want = precedence_message(conflict@, shift@, reduce@, nonterminal);
        assert(advice@ =~= want.body[3]->Wrap_0);
        let body = self.report_error_ambiguity_core(conflict, shift, reduce).push(advice.wrap());
        Message::new(
            conflict.production.span,
            Builder::new().text("Ambiguous grammar detected"),
            body,
        )
    }

    /// The sections that every diagnosis of a local ambiguity has: the
    /// symbols seen so far and the lookahead, then each of the two ways to
    /// go on, with a picture.
    pub fn report_error_not_lr1_core(
        &self,
        lookahead: Lookahead,
        conflict: &Conflict<'grammar>,
        action: Example,
        reduce: Example,
    ) -> (r: Builder)
        ensures
            r@ == not_lr1_sections(lookahead, conflict@, action@, reduce@),
    {
        let styles = ExampleStyles::new();
        let ghost want = not_lr1_sections(lookahead, conflict@, action@, reduce@);
        let leading = if action.cursor() >= reduce.cursor() {
            Content::SymbolList { example: action.clone(), length: action.cursor(), styles }
        } else {
            Content::SymbolList { example: reduce.clone(), length: reduce.cursor(), styles }
        };
        let seen = Builder::new().wrap_text(
            "The grammar as written cannot be parsed using an LR(1) parser, as more than one token of lookahead would be required. After encountering the following symbols in the input:",
        ).push(leading).push(lookahead_paragraph(lookahead)).lines();
        assert(seen@->Lines_0 =~= want[0]->Lines_0);
        let reduced = if reduce.reductions().len() > 0 {
            reduce.reductions()[0].nonterminal
        } else {
            conflict.production.nonterminal
        };
        let first = Builder::new().push(first_paragraph(&conflict.action)).push(
            Content::Picture { example: action, styles },
        ).lines();
        assert(first@->Lines_0 =~= want[1]->Lines_0);
        let second = Builder::new().push(second_paragraph(reduced)).push(
            Content::Picture { example: reduce, styles },
        ).wrap_text("(Note that an LR(1) parser must execute reductions as soon as it can.)").lines();
        assert(second@->Lines_0 =~= want[2]->Lines_0);
        let r = Builder::new().push(seen).push(first).push(second);
        assert(r@ =~= want);
        r
    }

    /// The diagnosis that suggests to inline `nonterminal`.
    pub fn report_error_suggest_inline(
        &self,
        lookahead: Lookahead,
        conflict: &Conflict<'grammar>,
        shift: Example,
        reduce: Example,
        nonterminal: NonterminalId,
    ) -> (r: Message)
        ensures
            r@ == suggest_inline_message(lookahead, conflict@, shift@, reduce@, nonterminal),
    {
        let advice = Builder::new().text(
            "It appears you could resolve this problem by adding",
        ).text("the annotation `#[inline]` to the definition of").push(
            Content::Symbol(Symbol::Nonterminal(nonterminal)),
        ).verbatimed().punctuated(".").text(
            "For more information, see the section on inlining",
        ).text("in the LALROP manual.");
        let ghost want = suggest_inline_message(lookahead, conflict@, shift@, reduce@, nonterminal);
        assert(advice@ =~= want.body[3]->Wrap_0);
        let body = self.report_error_not_lr1_core(lookahead, conflict, shift, reduce).push(
            advice.wrap(),
        );
        Message::new(conflict.production.span, Builder::new().text("Local ambiguity detected"), body)
    }

    /// The diagnosis that suggests to write `symbol?` for `nonterminal`.
    pub fn report_error_suggest_question(
        &self,
        lookahead: Lookahead,
        conflict: &Conflict<'grammar>,
        shift: Example,
        reduce: Example,
        nonterminal: NonterminalId,
        symbol: Symbol,
    ) -> (r: Message)
        ensures
            r@ == suggest_question_message(
                lookahead,
                conflict@,
                shift@,
                reduce@,
                nonterminal,
                symbol,
            ),
    {
        let advice = Builder::new().text(
            "It appears you could resolve this problem by replacing",
        ).text("uses of").push(Content::Symbol(Symbol::Nonterminal(nonterminal))).text("with").push(
            Content::Symbol(symbol),
        ).adjacent_text("`", "?`").text(
            "(or, alternatively, by adding the annotation `#[inline]` to the definition of",
        ).push(Content::Symbol(Symbol::Nonterminal(nonterminal)));
        let ghost want = suggest_question_message(
            lookahead,
            conflict@,
            shift@,
            reduce@,
            nonterminal,
            symbol,
        );
        assert(advice@ =~= want.body[3]->Wrap_0);
        let body = self.report_error_not_lr1_core(lookahead, conflict, shift, reduce).push(
            advice.wrap(),
        ).wrap_text("For more information, see the section on inlining in the LALROP manual.");
        Message::new(conflict.production.span, Builder::new().text("Local ambiguity detected"), body)
    }

    /// The diagnosis that says no more than that one token of lookahead
    /// does not suffice.
    pub fn report_error_insufficient_lookahead(
        &self,
        lookahead: Lookahead,
        conflict: &Conflict<'grammar>,
        action: Example,
        reduce: Example,
    ) -> (r: Message)
        ensures
            r@ == insufficient_lookahead_message(lookahead, conflict@, action@, reduce@),
    {
        let body = self.report_error_not_lr1_core(lookahead, conflict, action, reduce).wrap_text(
            "See the LALRPOP manual for advice on making your grammar LR(1).",
        );
        Message::new(conflict.production.span, Builder::new().text("Local ambiguity detected"), body)
    }

    /// The bare diagnosis: the items of the conflict's state, the
    /// lookahead and the two moves. It is given where no example was
    /// found.
    pub fn report_error_naive(&self, lookahead: Lookahead, conflict: &Conflict<'grammar>) -> (r:
        Message)
        requires
            conflict.state.0 < self.states@.len(),
        ensures
            r@ == naive_message(state_views(self.states@), lookahead, conflict@),
    {
        let state = &self.states[conflict.state.0];
        let ghost items = state@.items;
        let mut block = Builder::new().wrap_text("when in this state:");
        let mut n: usize = 0;
        assert(item_nodes(items.take(0)) =~= Seq::<ContentView>::empty());
        while n < state.items.len()
            invariant
                n <= state.items.len(),
                items == state@.items,
                block@ == seq![wrapped_text("when in this state:"@)] + item_nodes(
                    items.take(n as int),
                ),
            decreases state.items.len() - n,
        {
            let item = &state.items[n];
            let ghost before = block@;
            block = block.push(
                Content::Item {
                    production: item.production.clone(),
                    index: item.index,
                    lookahead: item.lookahead,
                },
            );
            proof {
                assert(items.take(n + 1) =~= items.take(n as int).push(item@));
                assert(item_nodes(items.take(n + 1)) =~= item_nodes(items.take(n as int)).push(
                    ContentView::Item(item@),
                ));
                assert(block@ =~= seq![wrapped_text("when in this state:"@)] + item_nodes(
                    items.take(n + 1),
                ));
            }
            n += 1;
        }
        assert(items.take(n as int) =~= items);
        let sentence = Builder::new().text("and looking at a token").push(
            Content::Lookahead(lookahead),
        ).verbatimed().text("we can reduce to a").push(
            Content::Symbol(Symbol::Nonterminal(conflict.production.nonterminal)),
        ).verbatimed();
        let sentence = match conflict.action {
            Action::Shift(_) => sentence.text("but we can also shift"),
            Action::Reduce(production) => sentence.text("but we can also reduce to a").push(
                Content::Symbol(Symbol::Nonterminal(production.nonterminal)),
            ).verbatimed(),
        };
        let ghost want = naive_message(state_views(self.states@), lookahead, conflict@);
        assert(sentence@ =~= want.body[1]->Wrap_0);
        assert(state_views(self.states@)[conflict.state.0 as int] == state@);
        let body = Builder::new().push(block.indented()).push(sentence.wrap());
        assert(body@ =~= want.body);
        Message::new(conflict.production.span, Builder::new().text("Conflict detected"), body)
    }

    /// Classifies a conflict: gathers the examples of its two sides and
    /// classifies it from them.
    pub fn classify(&self, lookahead: Lookahead, conflict: &Conflict<'grammar>) -> (r:
        ConflictClassification)
        requires
            conflict_in_reach(state_views(self.states@), lookahead, conflict@),
        ensures
            exists|answers: Gathered| #[trigger]
                classified(
                    self.grammar@,
                    self.tracer,
                    self.states@,
                    lookahead,
                    *conflict,
                    answers,
                    r@,
                ),
            conflict@.action is Shift && shift_groups(
                state_views(self.states@)[conflict.state.0 as int].items,
                lookahead->Terminal_0,
            ).len() == 0 ==> r@ == ClassificationView::Naive,
    {
        // Examples of the conflicting action, a shift or a reduce.
        let action_examples = match conflict.action {
            Action::Shift(_) => self.shift_examples(lookahead, conflict),
            Action::Reduce(production) => self.reduce_examples(
                conflict.state,
                production,
                lookahead,
            ),
        };
        // Examples of the conflicting reduce.
        let reduce_examples = self.reduce_examples(conflict.state, conflict.production, lookahead);
        let ghost answers = Gathered { action_examples, reduce_examples };
        let ghost actions = example_views(action_examples@);
        let ghost reduces = example_views(reduce_examples@);
        let r = self.classify_examples(lookahead, conflict, action_examples, reduce_examples);
        proof {
            assert(classified(
                self.grammar@,
                self.tracer,
                self.states@,
                lookahead,
                *conflict,
                answers,
                r@,
            ));
            if actions.len() == 0 {
                lemma_empty_side_is_naive(self.grammar@, lookahead, conflict@, actions, reduces);
            }
        }
        r
    }

    /// Classifies a conflict from the examples gathered for its two sides.
    /// Shorter examples are preferred to longer ones. The first pair that
    /// shows an ambiguity decides; else the first pair that suggests
    /// inlining; else the first example of each side is cited; and where a
    /// side has no example, nothing is.
    pub fn classify_examples(
        &self,
        lookahead: Lookahead,
        conflict: &Conflict<'grammar>,
        action_examples: Vec<Example>,
        reduce_examples: Vec<Example>,
    ) -> (r: ConflictClassification)
        ensures
            r@ == gathered_classification(
                self.grammar@,
                lookahead,
                conflict@,
                example_views(action_examples@),
                example_views(reduce_examples@),
            ),
    {
        let mut action_examples = action_examples;
        let mut reduce_examples = reduce_examples;
        sort_shortest_first(&mut action_examples);
        sort_shortest_first(&mut reduce_examples);
        if let Some(classification) = self.try_classify_ambiguity(
            lookahead,
            conflict,
            &action_examples,
            &reduce_examples,
        ) {
            return classification;
        }
        if let Some(classification) = self.try_classify_inline(
            lookahead,
            conflict,
            &action_examples,
            &reduce_examples,
        ) {
            return classification;
        }
        // Give up: pair the first example of each side, and where a side
        // has none, say nothing.
        if action_examples.len() > 0 && reduce_examples.len() > 0 {
            let ghost actions = example_views(action_examples@);
            let ghost reduces = example_views(reduce_examples@);
            let action = action_examples.remove(0);
            let reduce = reduce_examples.remove(0);
            assert(action@ == actions[0] && reduce@ == reduces[0]);
            ConflictClassification::InsufficientLookahead { action, reduce }
        } else {
            ConflictClassification::Naive
        }
    }

    /// Ambiguity or precedence, by the first pair of examples that show the
    /// same symbols with the cursor at the same place: precedence where
    /// the conflict is between shifting a terminal `l` and reducing
    /// `T = T l T`, ambiguity else. `None` where no pair is.
    pub fn try_classify_ambiguity(
        &self,
        lookahead: Lookahead,
        conflict: &Conflict<'grammar>,
        action_examples: &Vec<Example>,
        reduce_examples: &Vec<Example>,
    ) -> (r: Option<ConflictClassification>)
        ensures
            found_view(r) == ambiguity(
                lookahead,
                conflict@,
                example_views(action_examples@),
                example_views(reduce_examples@),
            ),
    {
        match find_first_pair(Pattern::SameInput, action_examples, reduce_examples) {
            None => None,
            Some((i, j)) => {
                let action = &action_examples[i];
                let reduce = &reduce_examples[j];
                assert(example_views(action_examples@)[i as int] == action@);
                assert(example_views(reduce_examples@)[j as int] == reduce@);
                // A precedence error, if the choice is between reducing
                // `T = T S T` and shifting `S`.
                if let Action::Shift(_) = conflict.action {
                    if let Lookahead::Terminal(terminal) = lookahead {
                        let nonterminal = conflict.production.nonterminal;
                        let symbols = &conflict.production.symbols;
                        if symbols.len() == 3 && symbols[0] == Symbol::Nonterminal(nonterminal)
                            && symbols[1] == Symbol::Terminal(terminal) && symbols[2]
                            == Symbol::Nonterminal(nonterminal) {
                            return Some(
                                ConflictClassification::Precedence {
                                    shift: action.clone(),
                                    reduce: reduce.clone(),
                                    nonterminal,
                                },
                            );
                        }
                    }
                }
                Some(
                    ConflictClassification::Ambiguity {
                        action: action.clone(),
                        reduce: reduce.clone(),
                    },
                )
            },
        }
    }

    /// A suggestion to inline, by the first pair of examples that have two
    /// reductions each, those of the reduce example to different
    /// nonterminals, and the same symbols behind the first reduction. The
    /// nonterminal of that first reduction is the one to inline; where it
    /// is defined as `X = symbol | ()`, `symbol?` is suggested in its
    /// place. `None` where no pair is.
    pub fn try_classify_inline(
        &self,
        _lookahead: Lookahead,
        _conflict: &Conflict<'grammar>,
        action_examples: &Vec<Example>,
        reduce_examples: &Vec<Example>,
    ) -> (r: Option<ConflictClassification>)
        ensures
            found_view(r) == inlining(
                self.grammar@,
                example_views(action_examples@),
                example_views(reduce_examples@),
            ),
    {
        match find_first_pair(Pattern::Inline, action_examples, reduce_examples) {
            None => None,
            Some((i, j)) => {
                let action = &action_examples[i];
                let reduce = &reduce_examples[j];
                assert(example_views(action_examples@)[i as int] == action@);
                assert(example_views(reduce_examples@)[j as int] == reduce@);
                let nonterminal = reduce.reductions()[0].nonterminal;
                let productions = self.grammar.productions_for(nonterminal);
                let ghost views = production_views(productions@);
                if productions.len() == 2 {
                    assert(views[0] == productions@[0]@ && views[1] == productions@[1]@);
                    if productions[0].symbols.len() == 0 && productions[1].symbols.len() == 1 {
                        return Some(
                            ConflictClassification::SuggestQuestion {
                                shift: action.clone(),
                                reduce: reduce.clone(),
                                nonterminal,
                                symbol: productions[1].symbols[0],
                            },
                        );
                    }
                    if productions[1].symbols.len() == 0 && productions[0].symbols.len() == 1 {
                        return Some(
                            ConflictClassification::SuggestQuestion {
                                shift: action.clone(),
                                reduce: reduce.clone(),
                                nonterminal,
                                symbol: productions[0].symbols[0],
                            },
                        );
                    }
                }
                Some(
                    ConflictClassification::SuggestInline {
                        shift: action.clone(),
                        reduce: reduce.clone(),
                        nonterminal,
                    },
                )
            },
        }
    }

    /// The symbols of `example` behind the end of its first reduction.
    pub fn inner_suffix<'ex>(&self, example: &'ex Example) -> (r: &'ex [ExampleSymbol])
        requires
            example@.reductions.len() > 0,
        ensures
            r@ == example@.inner_suffix(),
    {
        let end = example.reductions()[0].end;
        let symbols = example.symbols();
        assert(example@.reductions[0].end <= example@.symbols.len());
        slice_subrange(symbols.as_slice(), end, symbols.len())
    }

    /// The examples of the shift of `lookahead` in the conflict's state:
    /// for each form of item of the state that can shift it, in the order
    /// in which the forms first occur, what the search answers for that
    /// form, one answer after another. A form that occurs with several
    /// lookaheads is asked for once.
    pub fn shift_examples(&self, lookahead: Lookahead, conflict: &Conflict<'grammar>) -> (r: Vec<
        Example,
    >)
        requires
            lookahead is Terminal,
            conflict.state.0 < self.states@.len(),
        ensures
            shift_answer(self.tracer, self.states@, lookahead, *conflict, r@),
            shift_groups(
                state_views(self.states@)[conflict.state.0 as int].items,
                lookahead->Terminal_0,
            ).len() == 0 ==> r@.len() == 0,
    {
        let state = &self.states[conflict.state.0];
        assert(state_views(self.states@)[conflict.state.0 as int] == state@);
        let conflicting_items = self.conflicting_shift_items(state, lookahead, conflict);
        let mut examples: Vec<Example> = Vec::new();
        let ghost mut found: Seq<Vec<Example>> = Seq::empty();
        let mut n: usize = 0;
        assert(examples@ =~= end_to_end(found));
        while n < conflicting_items.len()
            invariant
                n <= conflicting_items.len(),
                found.len() == n,
                forall|k: int|
                    0 <= k < found.len() ==> call_ensures(
                        T::backtrace_shift,
                        (self.tracer, conflict.state, conflicting_items@[k].item),
                        #[trigger] found[k],
                    ),
                examples@ == end_to_end(found),
            decreases conflicting_items.len() - n,
        {
            let mut local_examples = self.tracer.backtrace_shift(
                conflict.state,
                conflicting_items[n].item,
            );
            let ghost before = examples@;
            let ghost answer = local_examples;
            examples.append(&mut local_examples);
            proof {
                lemma_end_to_end_push(found, answer);
                found = found.push(answer);
                assert(examples@ =~= before + answer@);
            }
            n += 1;
        }
        proof {
            assert(shift_traces(
                self.tracer,
                self.states@,
                lookahead,
                *conflict,
                conflicting_items@,
                found,
            ));
            if conflicting_items@.len() == 0 {
                assert(end_to_end(found) =~= Seq::<Example>::empty());
            }
        }
        examples
    }

    /// The examples of the reduction of `production` on `lookahead` in
    /// `state`: what the search answers when it is asked, in `state`, for
    /// the item of `production` with the dot behind its last symbol and
    /// with `lookahead`.
    pub fn reduce_examples(
        &self,
        state: StateIndex,
        production: &'grammar Production,
        lookahead: Lookahead,
    ) -> (r: Vec<Example>)
        ensures
            reduce_answer(self.tracer, state, production, lookahead, r),
    {
        let item = Item::completed(production, lookahead);
        self.tracer.backtrace_reduce(state, item)
    }

    /// The items of `state` that can shift `lookahead`, grouped by their
    /// form without lookahead, each group with the lookaheads of its items.
    pub fn conflicting_shift_items(
        &self,
        state: &State<'grammar>,
        lookahead: Lookahead,
        _conflict: &Conflict<'grammar>,
    ) -> (r: Vec<ShiftGroup<'grammar>>)
        requires
            lookahead is Terminal,
        ensures
            group_views(r@) == shift_groups(state@.items, lookahead->Terminal_0),
    {
        // The lookahead is a terminal: the end of the input is not shifted.
        match lookahead {
            Lookahead::Terminal(terminal) => group_shift_items(&state.items, terminal),
            Lookahead::EOF => Vec::new(),
        }
    }
}

/// The paragraph that names the lookahead.
fn lookahead_paragraph(lookahead: Lookahead) -> (r: Content)
    ensures
        r@ == ContentView::Wrap(lookahead_sentence(lookahead)),
{
    let sentence = match lookahead {
        Lookahead::Terminal(terminal) => Builder::new().text(
            "and when looking at the terminal",
        ).push(Content::Symbol(Symbol::Terminal(terminal))).verbatimed().styled(
            Style::CursorSymbol,
        ).punctuated(","),
        Lookahead::EOF => Builder::new().text("and when there are no more input tokens,"),
    };
    let sentence = sentence.text("parsing could continue in two distinct ways.");
    assert(sentence@ =~= lookahead_sentence(lookahead));
    sentence.wrap()
}

/// The paragraph that introduces the first way to go on.
fn first_paragraph<'grammar>(action: &Action<'grammar>) -> (r: Content)
    ensures
        r@ == first_way(action@),
{
    match action {
        Action::Shift(_) => Builder::new().text(
            "First, the parser could take no action yet, leading to:",
        ).wrap(),
        Action::Reduce(production) => {
            let sentence = Builder::new().text("First, the parser could reduce").push(
                Content::Symbol(Symbol::Nonterminal(production.nonterminal)),
            ).verbatimed().punctuated(",").text("leading to:");
            assert(sentence@ =~= first_way(action@)->Wrap_0);
            sentence.wrap()
        },
    }
}

/// The paragraph that introduces the second way to go on: the reduction to
/// `nonterminal`.
fn second_paragraph(nonterminal: NonterminalId) -> (r: Content)
    ensures
        r@ == ContentView::Wrap(
            seq![
                ContentView::Text("Second, the parser could reduce"@),
                quoted_symbol(Symbol::Nonterminal(nonterminal), ","@),
                ContentView::Text("leading to:"@),
            ],
        ),
{
    let sentence = Builder::new().text("Second, the parser could reduce").push(
        Content::Symbol(Symbol::Nonterminal(nonterminal)),
    ).verbatimed().punctuated(",").text("leading to:");
    assert(sentence@ =~= seq![
        ContentView::Text("Second, the parser could reduce"@),
        quoted_symbol(Symbol::Nonterminal(nonterminal), ","@),
        ContentView::Text("leading to:"@),
    ]);
    sentence.wrap()
}

/// The diagnosis of every conflict that table construction left, in the
/// order of the states and, within a state, of the registration of its
/// conflicts. Each diagnosis is made from what `tracer` answers for its
/// conflict.
pub fn report_error<'grammar, T: Tracer>(
    grammar: &'grammar Grammar,
    error: &TableConstructionError<'grammar>,
    tracer: &T,
) -> (r: Vec<Message>)
    requires
        error.well_formed(),
    ensures
        r@.len() == all_conflicts(error.states@).len(),
        exists|answers: Seq<Gathered>| #[trigger]
            reported(grammar@, tracer, error.states@, answers, message_views(r@)),
{
    let cx = ErrorReportingCx::new(grammar, error.states.as_slice(), tracer);
    cx.report_errors()
}

} // verus!
