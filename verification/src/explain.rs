//! What the diagnosis of each kind of conflict says.

use vstd::prelude::*;
use crate::automaton::{ActionView, ConflictView, ItemView, StateView};
use crate::classification::{classification, ClassificationView};
use crate::example::{shortest_first, ExampleView};
use crate::grammar::{NonterminalId, ProductionView, Symbol};
use crate::lookahead::Lookahead;
use crate::message::{
    punctuated,
    quoted_symbol,
    styled,
    verbatim,
    wrapped_text,
    ContentView,
    ExampleStyles,
    MessageView,
    Style,
};

verus! {

/// The first `length` symbols of `example`, in a row.
pub open spec fn symbol_list(example: ExampleView, length: nat, styles: ExampleStyles) -> ContentView {
    ContentView::SymbolList { example, length, styles }
}

/// `example`, drawn with its reductions.
pub open spec fn picture(example: ExampleView, styles: ExampleStyles) -> ContentView {
    ContentView::Picture { example, styles }
}

/// The heading of a diagnosis.
pub open spec fn heading(text: Seq<char>) -> Seq<ContentView> {
    seq![ContentView::Text(text)]
}

/// The sections that every diagnosis of an ambiguity has: the symbols that
/// can be reduced in two ways, and a picture of each way.
pub open spec fn ambiguity_sections(shift: ExampleView, reduce: ExampleView) -> Seq<ContentView> {
    seq![
        ContentView::Lines(
            seq![
                wrapped_text("The following symbols can be reduced in two ways:"@),
                symbol_list(reduce, reduce.symbols.len(), ExampleStyles::spec_ambig()),
            ],
        ),
        ContentView::Lines(
            seq![
                wrapped_text("They could be reduced like so:"@),
                picture(reduce, ExampleStyles::spec_ambig()),
            ],
        ),
        ContentView::Lines(
            seq![
                wrapped_text("Alternatively, they could be reduced like so:"@),
                picture(shift, ExampleStyles::spec_ambig()),
            ],
        ),
    ]
}

/// The diagnosis of an ambiguity.
pub open spec fn ambiguity_message(conflict: ConflictView, shift: ExampleView, reduce: ExampleView) -> MessageView {
    MessageView {
        span: conflict.production.span,
        heading: heading("Ambiguous grammar detected"@),
        body: ambiguity_sections(shift, reduce).push(
            wrapped_text(
                "LALRPOP does not yet support ambiguous grammars. See the LALRPOP manual for advice on making your grammar unambiguous."@,
            ),
        ),
    }
}

/// The diagnosis of an ambiguity that looks like a precedence error.
pub open spec fn precedence_message(
    conflict: ConflictView,
    shift: ExampleView,
    reduce: ExampleView,
    nonterminal: NonterminalId,
) -> MessageView {
    MessageView {
        span: conflict.production.span,
        heading: heading("Ambiguous grammar detected"@),
        body: ambiguity_sections(shift, reduce).push(
            ContentView::Wrap(
                seq![
                    ContentView::Text("This looks like a precedence error related to"@),
                    quoted_symbol(Symbol::Nonterminal(nonterminal), "."@),
                    ContentView::Text("See the LALRPOP manual for advice on encoding precedence."@),
                ],
            ),
        ),
    }
}

/// The example whose symbols up to the cursor open the diagnosis of a
/// local ambiguity: the one of the action, unless the one of the reduction
/// has its cursor further on.
pub open spec fn leading_example(action: ExampleView, reduce: ExampleView) -> ExampleView {
    if action.cursor >= reduce.cursor {
        action
    } else {
        reduce
    }
}

/// The sentence that names the lookahead.
pub open spec fn lookahead_sentence(lookahead: Lookahead) -> Seq<ContentView> {
    match lookahead {
        Lookahead::Terminal(terminal) => seq![
            ContentView::Text("and when looking at the terminal"@),
            punctuated(
                styled(verbatim(ContentView::Symbol(Symbol::Terminal(terminal))), Style::CursorSymbol),
                ","@,
            ),
            ContentView::Text("parsing could continue in two distinct ways."@),
        ],
        Lookahead::EOF => seq![
            ContentView::Text("and when there are no more input tokens,"@),
            ContentView::Text("parsing could continue in two distinct ways."@),
        ],
    }
}

/// The sentence that introduces the first way to go on.
pub open spec fn first_way(action: ActionView) -> ContentView {
    match action {
        ActionView::Shift(_) => wrapped_text(
            "First, the parser could take no action yet, leading to:"@,
        ),
        ActionView::Reduce(production) => ContentView::Wrap(
            seq![
                ContentView::Text("First, the parser could reduce"@),
                quoted_symbol(Symbol::Nonterminal(production.nonterminal), ","@),
                ContentView::Text("leading to:"@),
            ],
        ),
    }
}

/// The nonterminal that the second way reduces to: that of the first
/// reduction of the example; where the example has none, that of the
/// conflict's production.
pub open spec fn reduced_nonterminal(conflict: ConflictView, reduce: ExampleView) -> NonterminalId {
    if reduce.reductions.len() > 0 {
        reduce.reductions[0].nonterminal
    } else {
        conflict.production.nonterminal
    }
}

/// The sections that every diagnosis of a local ambiguity has: the symbols
/// seen so far and the lookahead, then each of the two ways to go on with
/// its picture.
pub open spec fn not_lr1_sections(
    lookahead: Lookahead,
    conflict: ConflictView,
    action: ExampleView,
    reduce: ExampleView,
) -> Seq<ContentView> {
    let leading = leading_example(action, reduce);
    seq![
        ContentView::Lines(
            seq![
                wrapped_text(
                    "The grammar as written cannot be parsed using an LR(1) parser, as more than one token of lookahead would be required. After encountering the following symbols in the input:"@,
                ),
                symbol_list(leading, leading.cursor, ExampleStyles::spec_new()),
                ContentView::Wrap(lookahead_sentence(lookahead)),
            ],
        ),
        ContentView::Lines(
            seq![first_way(conflict.action), picture(action, ExampleStyles::spec_new())],
        ),
        ContentView::Lines(
            seq![
                ContentView::Wrap(
                    seq![
                        ContentView::Text("Second, the parser could reduce"@),
                        quoted_symbol(
                            Symbol::Nonterminal(reduced_nonterminal(conflict, reduce)),
                            ","@,
                        ),
                        ContentView::Text("leading to:"@),
                    ],
                ),
                picture(reduce, ExampleStyles::spec_new()),
                wrapped_text(
                    "(Note that an LR(1) parser must execute reductions as soon as it can.)"@,
                ),
            ],
        ),
    ]
}

/// The diagnosis that suggests to inline `nonterminal`.
pub open spec fn suggest_inline_message(
    lookahead: Lookahead,
    conflict: ConflictView,
    shift: ExampleView,
    reduce: ExampleView,
    nonterminal: NonterminalId,
) -> MessageView {
    MessageView {
        span: conflict.production.span,
        heading: heading("Local ambiguity detected"@),
        body: not_lr1_sections(lookahead, conflict, shift, reduce).push(
            ContentView::Wrap(
                seq![
                    ContentView::Text("It appears you could resolve this problem by adding"@),
                    ContentView::Text("the annotation `#[inline]` to the definition of"@),
                    quoted_symbol(Symbol::Nonterminal(nonterminal), "."@),
                    ContentView::Text("For more information, see the section on inlining"@),
                    ContentView::Text("in the LALROP manual."@),
                ],
            ),
        ),
    }
}

/// The diagnosis that suggests to write `symbol?` for `nonterminal`.
pub open spec fn suggest_question_message(
    lookahead: Lookahead,
    conflict: ConflictView,
    shift: ExampleView,
    reduce: ExampleView,
    nonterminal: NonterminalId,
    symbol: Symbol,
) -> MessageView {
    MessageView {
        span: conflict.production.span,
        heading: heading("Local ambiguity detected"@),
        body: not_lr1_sections(lookahead, conflict, shift, reduce).push(
            ContentView::Wrap(
                seq![
                    ContentView::Text("It appears you could resolve this problem by replacing"@),
                    ContentView::Text("uses of"@),
                    ContentView::Symbol(Symbol::Nonterminal(nonterminal)),
                    ContentView::Text("with"@),
                    ContentView::Adjacent {
                        prefix: "`"@,
                        item: Box::new(ContentView::Symbol(symbol)),
                        suffix: "?`"@,
                    },
                    ContentView::Text(
                        "(or, alternatively, by adding the annotation `#[inline]` to the definition of"@,
                    ),
                    ContentView::Symbol(Symbol::Nonterminal(nonterminal)),
                ],
            ),
        ).push(
            wrapped_text(
                "For more information, see the section on inlining in the LALROP manual."@,
            ),
        ),
    }
}

/// The diagnosis that says no more than that one token of lookahead does
/// not suffice.
pub open spec fn insufficient_lookahead_message(
    lookahead: Lookahead,
    conflict: ConflictView,
    action: ExampleView,
    reduce: ExampleView,
) -> MessageView {
    MessageView {
        span: conflict.production.span,
        heading: heading("Local ambiguity detected"@),
        body: not_lr1_sections(lookahead, conflict, action, reduce).push(
            wrapped_text("See the LALRPOP manual for advice on making your grammar LR(1)."@),
        ),
    }
}

/// The items of a state, each as a node.
pub open spec fn item_nodes(items: Seq<ItemView>) -> Seq<ContentView> {
    items.map_values(|item: ItemView| ContentView::Item(item))
}

/// The end of the sentence of the bare diagnosis: what else the automaton
/// could do.
pub open spec fn other_move(action: ActionView) -> Seq<ContentView> {
    match action {
        ActionView::Shift(_) => seq![ContentView::Text("but we can also shift"@)],
        ActionView::Reduce(production) => seq![
            ContentView::Text("but we can also reduce to a"@),
            verbatim(ContentView::Symbol(Symbol::Nonterminal(production.nonterminal))),
        ],
    }
}

/// The bare diagnosis: the items of the conflict's state, the lookahead,
/// and the two moves.
pub open spec fn naive_message(states: Seq<StateView>, lookahead: Lookahead, conflict: ConflictView) -> MessageView
    recommends
        conflict.state.0 < states.len(),
{
    MessageView {
        span: conflict.production.span,
        heading: heading("Conflict detected"@),
        body: seq![
            ContentView::Indented(
                Box::new(
                    ContentView::Lines(
                        seq![wrapped_text("when in this state:"@)] + item_nodes(
                            states[conflict.state.0 as int].items,
                        ),
                    ),
                ),
            ),
            ContentView::Wrap(
                seq![
                    ContentView::Text("and looking at a token"@),
                    verbatim(ContentView::Lookahead(lookahead)),
                    ContentView::Text("we can reduce to a"@),
                    verbatim(ContentView::Symbol(Symbol::Nonterminal(conflict.production.nonterminal))),
                ] + other_move(conflict.action),
            ),
        ],
    }
}

/// The diagnosis of a conflict that was classified as `classification`.
pub open spec fn message_for(
    states: Seq<StateView>,
    lookahead: Lookahead,
    conflict: ConflictView,
    classification: ClassificationView,
) -> MessageView {
    match classification {
        ClassificationView::Ambiguity { action, reduce } => ambiguity_message(
            conflict,
            action,
            reduce,
        ),
        ClassificationView::Precedence { shift, reduce, nonterminal } => precedence_message(
            conflict,
            shift,
            reduce,
            nonterminal,
        ),
        ClassificationView::SuggestInline { shift, reduce, nonterminal } => suggest_inline_message(
            lookahead,
            conflict,
            shift,
            reduce,
            nonterminal,
        ),
        ClassificationView::SuggestQuestion {
            shift,
            reduce,
            nonterminal,
            symbol,
        } => suggest_question_message(lookahead, conflict, shift, reduce, nonterminal, symbol),
        ClassificationView::InsufficientLookahead {
            action,
            reduce,
        } => insufficient_lookahead_message(lookahead, conflict, action, reduce),
        ClassificationView::Naive => naive_message(states, lookahead, conflict),
    }
}

/// The classification of a conflict from the examples gathered for its two
/// sides, once each list has been ordered shortest first.
pub open spec fn gathered_classification(
    grammar: Seq<ProductionView>,
    lookahead: Lookahead,
    conflict: ConflictView,
    actions: Seq<ExampleView>,
    reduces: Seq<ExampleView>,
) -> ClassificationView {
    classification(grammar, lookahead, conflict, shortest_first(actions), shortest_first(reduces))
}

/// The diagnosis of a conflict from the examples gathered for its two
/// sides.
pub open spec fn diagnosis(
    grammar: Seq<ProductionView>,
    states: Seq<StateView>,
    lookahead: Lookahead,
    conflict: ConflictView,
    actions: Seq<ExampleView>,
    reduces: Seq<ExampleView>,
) -> MessageView {
    message_for(
        states,
        lookahead,
        conflict,
        gathered_classification(grammar, lookahead, conflict, actions, reduces),
    )
}

} // verus!
