use lalrpop::automaton::{
    Action, Conflict, Item, LR0Item, LookaheadConflicts, State, StateIndex, TableConstructionError,
};
use lalrpop::classification::ConflictClassification;
use lalrpop::error::{report_error, ErrorReportingCx};
use lalrpop::example::{Example, ExampleSymbol, Reduction};
use lalrpop::grammar::{Grammar, NonterminalId, Production, Span, Symbol, TerminalId};
use lalrpop::lookahead::Lookahead;
use lalrpop::message::{Builder, Content, ExampleStyles, Message, Style};
use lalrpop::trace::Tracer;

struct Fixed {
    shift: Vec<Example>,
    reduce: Vec<Example>,
}

impl Tracer for Fixed {
    fn backtrace_shift<'grammar>(&self, _state: StateIndex, _item: LR0Item<'grammar>) -> Vec<Example> {
        self.shift.clone()
    }

    fn backtrace_reduce<'grammar>(&self, _state: StateIndex, _item: Item<'grammar>) -> Vec<Example> {
        self.reduce.clone()
    }
}

/// Answers by what it is asked: a shift of an item with the dot at `index`
/// gives `index` examples, a reduction in state `s` gives `s` examples.
struct Counting;

impl Tracer for Counting {
    fn backtrace_shift<'grammar>(&self, _state: StateIndex, item: LR0Item<'grammar>) -> Vec<Example> {
        (0..item.index).map(|n| example(vec![t(n)], 0, vec![])).collect()
    }

    fn backtrace_reduce<'grammar>(&self, state: StateIndex, item: Item<'grammar>) -> Vec<Example> {
        assert_eq!(item.index, item.production.symbols.len());
        (0..state.0).map(|n| example(vec![nt(n)], 0, vec![])).collect()
    }
}

fn nt(n: usize) -> Symbol {
    Symbol::Nonterminal(NonterminalId(n))
}

fn t(n: usize) -> Symbol {
    Symbol::Terminal(TerminalId(n))
}

fn production(head: usize, symbols: Vec<Symbol>, at: usize) -> Production {
    Production { nonterminal: NonterminalId(head), symbols, span: Span { lo: at, hi: at + 1 } }
}

fn example(symbols: Vec<Symbol>, cursor: usize, reductions: Vec<(usize, usize, usize)>) -> Example {
    Example::new(
        symbols.into_iter().map(ExampleSymbol::Symbol).collect(),
        cursor,
        reductions
            .into_iter()
            .map(|(start, end, n)| Reduction { start, end, nonterminal: NonterminalId(n) })
            .collect(),
    )
    .unwrap()
}

fn text(s: &str) -> Content {
    Content::Text(s.to_string())
}

fn wrap_text(s: &str) -> Content {
    Content::Wrap(vec![text(s)])
}

fn verbatim(item: Content) -> Content {
    Content::Adjacent { prefix: "`".to_string(), item: Box::new(item), suffix: "`".to_string() }
}

fn punctuated(item: Content, mark: &str) -> Content {
    Content::Punctuated { item: Box::new(item), mark: mark.to_string() }
}

fn quoted(symbol: Symbol, mark: &str) -> Content {
    punctuated(verbatim(Content::Symbol(symbol)), mark)
}

fn ambiguity_sections(shift: &Example, reduce: &Example) -> Vec<Content> {
    let styles = ExampleStyles {
        before_cursor: Style::AmbigSymbols,
        on_cursor: Style::AmbigSymbols,
        after_cursor: Style::AmbigSymbols,
    };
    vec![
        Content::Lines(vec![
            wrap_text("The following symbols can be reduced in two ways:"),
            Content::SymbolList { example: reduce.clone(), length: reduce.len(), styles },
        ]),
        Content::Lines(vec![
            wrap_text("They could be reduced like so:"),
            Content::Picture { example: reduce.clone(), styles },
        ]),
        Content::Lines(vec![
            wrap_text("Alternatively, they could be reduced like so:"),
            Content::Picture { example: shift.clone(), styles },
        ]),
    ]
}

fn not_lr1_sections(
    lookahead: Vec<Content>,
    first: Content,
    leading: &Example,
    action: &Example,
    reduce: &Example,
    reduced: usize,
) -> Vec<Content> {
    let styles = ExampleStyles {
        before_cursor: Style::ObservedSymbols,
        on_cursor: Style::CursorSymbol,
        after_cursor: Style::UnobservedSymbols,
    };
    let mut sentence = lookahead;
    sentence.push(text("parsing could continue in two distinct ways."));
    vec![
        Content::Lines(vec![
            wrap_text("The grammar as written cannot be parsed using an LR(1) parser, as more than one token of lookahead would be required. After encountering the following symbols in the input:"),
            Content::SymbolList { example: leading.clone(), length: leading.cursor(), styles },
            Content::Wrap(sentence),
        ]),
        Content::Lines(vec![first, Content::Picture { example: action.clone(), styles }]),
        Content::Lines(vec![
            Content::Wrap(vec![
                text("Second, the parser could reduce"),
                quoted(nt(reduced), ","),
                text("leading to:"),
            ]),
            Content::Picture { example: reduce.clone(), styles },
            wrap_text("(Note that an LR(1) parser must execute reductions as soon as it can.)"),
        ]),
    ]
}

fn terminal_sentence(n: usize) -> Vec<Content> {
    vec![
        text("and when looking at the terminal"),
        punctuated(
            Content::Styled { style: Style::CursorSymbol, item: Box::new(verbatim(Content::Symbol(t(n)))) },
            ",",
        ),
    ]
}

fn shift_conflict<'g>(production: &'g Production) -> Conflict<'g> {
    Conflict { state: StateIndex(0), production, action: Action::Shift(StateIndex(1)) }
}

#[test]
fn ambiguity_message_shows_both_reductions() {
    let grammar = Grammar { productions: vec![production(0, vec![nt(0), t(0), nt(0)], 10)] };
    let states: Vec<State> = vec![];
    let tracer = Fixed { shift: vec![], reduce: vec![] };
    let cx = ErrorReportingCx::new(&grammar, &states, &tracer);
    let conflict = shift_conflict(&grammar.productions[0]);
    let shift = example(vec![nt(0), t(0), nt(0)], 1, vec![(0, 3, 0)]);
    let reduce = example(vec![nt(0), t(0), nt(0)], 1, vec![(0, 1, 0), (0, 3, 0)]);
    let message = cx.report_error_ambiguity(&conflict, shift.clone(), reduce.clone());
    let mut body = ambiguity_sections(&shift, &reduce);
    body.push(wrap_text("LALRPOP does not yet support ambiguous grammars. See the LALRPOP manual for advice on making your grammar unambiguous."));
    assert_eq!(
        message,
        Message { span: Span { lo: 10, hi: 11 }, heading: vec![text("Ambiguous grammar detected")], body }
    );
    let core = cx.report_error_ambiguity_core(&conflict, shift.clone(), reduce.clone());
    assert_eq!(core.end(), ambiguity_sections(&shift, &reduce));
}

#[test]
fn precedence_message_names_the_nonterminal() {
    let grammar = Grammar { productions: vec![production(0, vec![nt(0), t(0), nt(0)], 10)] };
    let states: Vec<State> = vec![];
    let tracer = Fixed { shift: vec![], reduce: vec![] };
    let cx = ErrorReportingCx::new(&grammar, &states, &tracer);
    let conflict = shift_conflict(&grammar.productions[0]);
    let shift = example(vec![nt(0), t(0), nt(0)], 1, vec![]);
    let reduce = example(vec![nt(0), t(0), nt(0)], 1, vec![(0, 3, 0)]);
    let message = cx.report_error_precedence(&conflict, shift.clone(), reduce.clone(), NonterminalId(4));
    let mut body = ambiguity_sections(&shift, &reduce);
    body.push(Content::Wrap(vec![
        text("This looks like a precedence error related to"),
        quoted(nt(4), "."),
        text("See the LALRPOP manual for advice on encoding precedence."),
    ]));
    assert_eq!(
        message,
        Message { span: Span { lo: 10, hi: 11 }, heading: vec![text("Ambiguous grammar detected")], body }
    );
}

#[test]
fn insufficient_lookahead_message_for_shift_on_terminal() {
    let grammar = Grammar { productions: vec![production(3, vec![t(1)], 20)] };
    let states: Vec<State> = vec![];
    let tracer = Fixed { shift: vec![], reduce: vec![] };
    let cx = ErrorReportingCx::new(&grammar, &states, &tracer);
    let conflict = shift_conflict(&grammar.productions[0]);
    let action = example(vec![t(0), t(1), t(2)], 2, vec![(0, 3, 5)]);
    let reduce = example(vec![t(1), t(1)], 1, vec![(0, 1, 7), (0, 2, 8)]);
    let message = cx.report_error_insufficient_lookahead(
        Lookahead::Terminal(TerminalId(6)),
        &conflict,
        action.clone(),
        reduce.clone(),
    );
    let mut body = not_lr1_sections(
        terminal_sentence(6),
        wrap_text("First, the parser could take no action yet, leading to:"),
        &action,
        &action,
        &reduce,
        7,
    );
    body.push(wrap_text("See the LALRPOP manual for advice on making your grammar LR(1)."));
    assert_eq!(
        message,
        Message { span: Span { lo: 20, hi: 21 }, heading: vec![text("Local ambiguity detected")], body }
    );
}

#[test]
fn local_ambiguity_leads_with_the_further_cursor() {
    let grammar = Grammar { productions: vec![production(3, vec![t(1)], 20), production(4, vec![], 30)] };
    let states: Vec<State> = vec![];
    let tracer = Fixed { shift: vec![], reduce: vec![] };
    let cx = ErrorReportingCx::new(&grammar, &states, &tracer);
    let conflict = Conflict {
        state: StateIndex(0),
        production: &grammar.productions[0],
        action: Action::Reduce(&grammar.productions[1]),
    };
    let action = example(vec![t(0), t(1), t(2)], 1, vec![(0, 3, 5)]);
    let reduce = example(vec![t(1), t(1)], 2, vec![(0, 1, 7)]);
    let sections = cx.report_error_not_lr1_core(Lookahead::EOF, &conflict, action.clone(), reduce.clone());
    let first = || {
        Content::Wrap(vec![
            text("First, the parser could reduce"),
            quoted(nt(4), ","),
            text("leading to:"),
        ])
    };
    assert_eq!(
        sections.end(),
        not_lr1_sections(
            vec![text("and when there are no more input tokens,")],
            first(),
            &reduce,
            &action,
            &reduce,
            7,
        )
    );
    // with equal cursors the action example leads
    let level = example(vec![t(1), t(1)], 1, vec![(0, 1, 7)]);
    let sections = cx.report_error_not_lr1_core(Lookahead::EOF, &conflict, action.clone(), level.clone());
    assert_eq!(
        sections.end(),
        not_lr1_sections(
            vec![text("and when there are no more input tokens,")],
            first(),
            &action,
            &action,
            &level,
            7,
        )
    );
}

#[test]
fn local_ambiguity_without_reductions_names_the_production() {
    let grammar = Grammar { productions: vec![production(3, vec![t(1)], 20)] };
    let states: Vec<State> = vec![];
    let tracer = Fixed { shift: vec![], reduce: vec![] };
    let cx = ErrorReportingCx::new(&grammar, &states, &tracer);
    let conflict = shift_conflict(&grammar.productions[0]);
    let action = example(vec![t(0)], 1, vec![]);
    let reduce = example(vec![t(1)], 1, vec![]);
    let sections = cx.report_error_not_lr1_core(Lookahead::EOF, &conflict, action.clone(), reduce.clone());
    assert_eq!(
        sections.end(),
        not_lr1_sections(
            vec![text("and when there are no more input tokens,")],
            wrap_text("First, the parser could take no action yet, leading to:"),
            &action,
            &action,
            &reduce,
            3,
        )
    );
}

#[test]
fn suggest_inline_message_gives_the_annotation() {
    let grammar = Grammar { productions: vec![production(3, vec![t(1)], 20)] };
    let states: Vec<State> = vec![];
    let tracer = Fixed { shift: vec![], reduce: vec![] };
    let cx = ErrorReportingCx::new(&grammar, &states, &tracer);
    let conflict = shift_conflict(&grammar.productions[0]);
    let shift = example(vec![t(0), t(1)], 0, vec![(0, 1, 2), (0, 2, 0)]);
    let reduce = example(vec![nt(2), t(1)], 0, vec![(0, 1, 2), (0, 2, 0)]);
    let message = cx.report_error_suggest_inline(
        Lookahead::Terminal(TerminalId(0)),
        &conflict,
        shift.clone(),
        reduce.clone(),
        NonterminalId(2),
    );
    let mut body = not_lr1_sections(
        terminal_sentence(0),
        wrap_text("First, the parser could take no action yet, leading to:"),
        &shift,
        &shift,
        &reduce,
        2,
    );
    body.push(Content::Wrap(vec![
        text("It appears you could resolve this problem by adding"),
        text("the annotation `#[inline]` to the definition of"),
        quoted(nt(2), "."),
        text("For more information, see the section on inlining"),
        text("in the LALROP manual."),
    ]));
    assert_eq!(
        message,
        Message { span: Span { lo: 20, hi: 21 }, heading: vec![text("Local ambiguity detected")], body }
    );
}

#[test]
fn suggest_question_message_gives_the_replacement() {
    let grammar = Grammar { productions: vec![production(3, vec![t(1)], 20)] };
    let states: Vec<State> = vec![];
    let tracer = Fixed { shift: vec![], reduce: vec![] };
    let cx = ErrorReportingCx::new(&grammar, &states, &tracer);
    let conflict = shift_conflict(&grammar.productions[0]);
    let shift = example(vec![t(0), t(1)], 0, vec![(0, 1, 1), (0, 2, 0)]);
    let reduce = example(vec![nt(1), t(1)], 0, vec![(0, 1, 1), (0, 2, 0)]);
    let message = cx.report_error_suggest_question(
        Lookahead::Terminal(TerminalId(0)),
        &conflict,
        shift.clone(),
        reduce.clone(),
        NonterminalId(1),
        t(9),
    );
    let mut body = not_lr1_sections(
        terminal_sentence(0),
        wrap_text("First, the parser could take no action yet, leading to:"),
        &shift,
        &shift,
        &reduce,
        1,
    );
    body.push(Content::Wrap(vec![
        text("It appears you could resolve this problem by replacing"),
        text("uses of"),
        Content::Symbol(nt(1)),
        text("with"),
        Content::Adjacent {
            prefix: "`".to_string(),
            item: Box::new(Content::Symbol(t(9))),
            suffix: "?`".to_string(),
        },
        text("(or, alternatively, by adding the annotation `#[inline]` to the definition of"),
        Content::Symbol(nt(1)),
    ]));
    body.push(wrap_text("For more information, see the section on inlining in the LALROP manual."));
    assert_eq!(
        message,
        Message { span: Span { lo: 20, hi: 21 }, heading: vec![text("Local ambiguity detected")], body }
    );
}

#[test]
fn naive_message_lists_the_items_of_the_state() {
    let grammar = Grammar {
        productions: vec![production(3, vec![t(1), nt(3)], 20), production(4, vec![], 30)],
    };
    let items = vec![
        Item { production: &grammar.productions[0], index: 1, lookahead: Lookahead::EOF },
        Item { production: &grammar.productions[1], index: 0, lookahead: Lookahead::Terminal(TerminalId(1)) },
    ];
    let states = vec![
        State { index: StateIndex(0), items: vec![], conflicts: vec![] },
        State { index: StateIndex(1), items, conflicts: vec![] },
    ];
    let tracer = Fixed { shift: vec![], reduce: vec![] };
    let cx = ErrorReportingCx::new(&grammar, &states, &tracer);
    let conflict = Conflict {
        state: StateIndex(1),
        production: &grammar.productions[0],
        action: Action::Shift(StateIndex(0)),
    };
    let message = cx.report_error_naive(Lookahead::Terminal(TerminalId(1)), &conflict);
    let item_nodes = vec![
        wrap_text("when in this state:"),
        Content::Item { production: grammar.productions[0].clone(), index: 1, lookahead: Lookahead::EOF },
        Content::Item {
            production: grammar.productions[1].clone(),
            index: 0,
            lookahead: Lookahead::Terminal(TerminalId(1)),
        },
    ];
    let sentence = || {
        vec![
            text("and looking at a token"),
            verbatim(Content::Lookahead(Lookahead::Terminal(TerminalId(1)))),
            text("we can reduce to a"),
            verbatim(Content::Symbol(nt(3))),
        ]
    };
    let mut shifting = sentence();
    shifting.push(text("but we can also shift"));
    assert_eq!(
        message,
        Message {
            span: Span { lo: 20, hi: 21 },
            heading: vec![text("Conflict detected")],
            body: vec![
                Content::Indented(Box::new(Content::Lines(item_nodes))),
                Content::Wrap(shifting),
            ],
        }
    );
    let reducing = Conflict {
        state: StateIndex(0),
        production: &grammar.productions[0],
        action: Action::Reduce(&grammar.productions[1]),
    };
    let message = cx.report_error_naive(Lookahead::Terminal(TerminalId(1)), &reducing);
    let mut other = sentence();
    other.push(text("but we can also reduce to a"));
    other.push(verbatim(Content::Symbol(nt(4))));
    assert_eq!(
        message.body,
        vec![
            Content::Indented(Box::new(Content::Lines(vec![wrap_text("when in this state:")]))),
            Content::Wrap(other),
        ]
    );
}

#[test]
fn report_classification_dispatches_on_the_kind() {
    let grammar = Grammar { productions: vec![production(3, vec![t(1)], 20)] };
    let states = vec![State { index: StateIndex(0), items: vec![], conflicts: vec![] }];
    let tracer = Fixed { shift: vec![], reduce: vec![] };
    let cx = ErrorReportingCx::new(&grammar, &states, &tracer);
    let conflict = shift_conflict(&grammar.productions[0]);
    let la = Lookahead::Terminal(TerminalId(0));
    let a = example(vec![t(0), t(1)], 0, vec![(0, 1, 1), (0, 2, 0)]);
    let r = example(vec![nt(1), t(1)], 0, vec![(0, 1, 1), (0, 2, 0)]);
    assert_eq!(
        cx.report_classification(la, &conflict, ConflictClassification::Ambiguity { action: a.clone(), reduce: r.clone() }),
        cx.report_error_ambiguity(&conflict, a.clone(), r.clone())
    );
    assert_eq!(
        cx.report_classification(
            la,
            &conflict,
            ConflictClassification::Precedence { shift: a.clone(), reduce: r.clone(), nonterminal: NonterminalId(3) }
        ),
        cx.report_error_precedence(&conflict, a.clone(), r.clone(), NonterminalId(3))
    );
    assert_eq!(
        cx.report_classification(
            la,
            &conflict,
            ConflictClassification::SuggestInline { shift: a.clone(), reduce: r.clone(), nonterminal: NonterminalId(1) }
        ),
        cx.report_error_suggest_inline(la, &conflict, a.clone(), r.clone(), NonterminalId(1))
    );
    assert_eq!(
        cx.report_classification(
            la,
            &conflict,
            ConflictClassification::SuggestQuestion {
                shift: a.clone(),
                reduce: r.clone(),
                nonterminal: NonterminalId(1),
                symbol: t(1),
            }
        ),
        cx.report_error_suggest_question(la, &conflict, a.clone(), r.clone(), NonterminalId(1), t(1))
    );
    assert_eq!(
        cx.report_classification(
            la,
            &conflict,
            ConflictClassification::InsufficientLookahead { action: a.clone(), reduce: r.clone() }
        ),
        cx.report_error_insufficient_lookahead(la, &conflict, a, r)
    );
    assert_eq!(
        cx.report_classification(la, &conflict, ConflictClassification::Naive),
        cx.report_error_naive(la, &conflict)
    );
}

#[test]
fn naive_report_when_tracer_finds_no_reduce_example() {
    let grammar = Grammar { productions: vec![production(0, vec![nt(0), t(0), nt(0)], 10)] };
    let states = vec![State {
        index: StateIndex(0),
        items: vec![Item { production: &grammar.productions[0], index: 1, lookahead: Lookahead::EOF }],
        conflicts: vec![],
    }];
    let tracer = Fixed { shift: vec![example(vec![nt(0)], 1, vec![(0, 1, 0)])], reduce: vec![] };
    let cx = ErrorReportingCx::new(&grammar, &states, &tracer);
    let conflict = shift_conflict(&grammar.productions[0]);
    let la = Lookahead::Terminal(TerminalId(0));
    let message = cx.report_error(la, &conflict);
    assert_eq!(message, cx.report_error_naive(la, &conflict));
    assert_eq!(message.heading, vec![text("Conflict detected")]);
    match &message.body[0] {
        Content::Indented(block) => match &**block {
            Content::Lines(lines) => {
                assert_eq!(lines.len(), 2);
                assert_eq!(
                    lines[1],
                    Content::Item {
                        production: grammar.productions[0].clone(),
                        index: 1,
                        lookahead: Lookahead::EOF
                    }
                );
            }
            other => panic!("{:?}", other),
        },
        other => panic!("{:?}", other),
    }
}

#[test]
fn report_errors_goes_state_by_state() {
    let grammar = Grammar {
        productions: vec![
            production(0, vec![t(0)], 100),
            production(1, vec![t(1)], 200),
            production(2, vec![t(2)], 300),
        ],
    };
    let reduce = |state: usize, production: usize| Conflict {
        state: StateIndex(state),
        production: &grammar.productions[production],
        action: Action::Reduce(&grammar.productions[0]),
    };
    let mut states: Vec<State> = (0..8)
        .map(|index| State { index: StateIndex(index), items: vec![], conflicts: vec![] })
        .collect();
    states[3].conflicts = vec![
        LookaheadConflicts { lookahead: Lookahead::Terminal(TerminalId(0)), conflicts: vec![reduce(3, 0)] },
        LookaheadConflicts { lookahead: Lookahead::EOF, conflicts: vec![reduce(3, 1)] },
    ];
    states[7].conflicts =
        vec![LookaheadConflicts { lookahead: Lookahead::EOF, conflicts: vec![reduce(7, 2)] }];
    let error = TableConstructionError { states };
    assert!(error.is_well_formed());
    let tracer = Fixed { shift: vec![], reduce: vec![] };
    let messages = report_error(&grammar, &error, &tracer);
    assert_eq!(messages.len(), 3);
    assert_eq!(messages[0].span, Span { lo: 100, hi: 101 });
    assert_eq!(messages[1].span, Span { lo: 200, hi: 201 });
    assert_eq!(messages[2].span, Span { lo: 300, hi: 301 });
    let cx = ErrorReportingCx::new(&grammar, &error.states, &tracer);
    assert_eq!(messages[0], cx.report_error(Lookahead::Terminal(TerminalId(0)), &reduce(3, 0)));
    assert_eq!(messages[1], cx.report_error(Lookahead::EOF, &reduce(3, 1)));
    assert_eq!(messages[2], cx.report_error(Lookahead::EOF, &reduce(7, 2)));
    assert_eq!(cx.report_errors(), messages);
    assert_eq!(report_error(&grammar, &error, &tracer), messages);
}

#[test]
fn report_errors_keeps_registration_order_within_an_entry() {
    let grammar = Grammar {
        productions: vec![production(0, vec![t(0)], 100), production(1, vec![t(1)], 200)],
    };
    let conflict = |production: usize| Conflict {
        state: StateIndex(0),
        production: &grammar.productions[production],
        action: Action::Reduce(&grammar.productions[0]),
    };
    let states = vec![State {
        index: StateIndex(0),
        items: vec![],
        conflicts: vec![LookaheadConflicts {
            lookahead: Lookahead::EOF,
            conflicts: vec![conflict(1), conflict(0), conflict(1)],
        }],
    }];
    let error = TableConstructionError { states };
    let tracer = Fixed { shift: vec![], reduce: vec![] };
    let messages = report_error(&grammar, &error, &tracer);
    let spans: Vec<usize> = messages.iter().map(|m| m.span.lo).collect();
    assert_eq!(spans, vec![200, 100, 200]);
    let none = TableConstructionError { states: vec![] };
    assert!(report_error(&grammar, &none, &tracer).is_empty());
}

#[test]
fn shift_examples_come_group_by_group() {
    let grammar = Grammar {
        productions: vec![production(0, vec![nt(0), t(0), t(0), nt(0)], 1), production(1, vec![t(0)], 2)],
    };
    let p = &grammar.productions[0];
    let q = &grammar.productions[1];
    let states = vec![State {
        index: StateIndex(0),
        items: vec![
            Item { production: p, index: 2, lookahead: Lookahead::EOF },
            Item { production: q, index: 0, lookahead: Lookahead::EOF },
            Item { production: p, index: 1, lookahead: Lookahead::EOF },
            Item { production: p, index: 2, lookahead: Lookahead::Terminal(TerminalId(0)) },
            Item { production: p, index: 3, lookahead: Lookahead::EOF },
        ],
        conflicts: vec![],
    }];
    let tracer = Counting;
    let cx = ErrorReportingCx::new(&grammar, &states, &tracer);
    let conflict = shift_conflict(p);
    let groups = cx.conflicting_shift_items(&states[0], Lookahead::Terminal(TerminalId(0)), &conflict);
    let forms: Vec<usize> = groups.iter().map(|g| g.item.index).collect();
    assert_eq!(forms, vec![2, 0, 1]);
    let found = cx.shift_examples(Lookahead::Terminal(TerminalId(0)), &conflict);
    // two examples for the dot at 2, none for the dot at 0, one for the dot at 1
    assert_eq!(
        found,
        vec![example(vec![t(0)], 0, vec![]), example(vec![t(1)], 0, vec![]), example(vec![t(0)], 0, vec![])]
    );
    assert!(cx.shift_examples(Lookahead::Terminal(TerminalId(5)), &conflict).is_empty());
}

#[test]
fn reduce_examples_ask_for_the_completed_item() {
    let grammar = Grammar { productions: vec![production(0, vec![nt(0), t(0)], 1)] };
    let states: Vec<State> = vec![];
    let tracer = Counting;
    let cx = ErrorReportingCx::new(&grammar, &states, &tracer);
    let found = cx.reduce_examples(StateIndex(2), &grammar.productions[0], Lookahead::EOF);
    assert_eq!(found, vec![example(vec![nt(0)], 0, vec![]), example(vec![nt(1)], 0, vec![])]);
    assert!(cx.reduce_examples(StateIndex(0), &grammar.productions[0], Lookahead::EOF).is_empty());
}

#[test]
fn builder_decorates_the_last_node() {
    let built = Builder::new()
        .text("a")
        .push(Content::Symbol(t(1)))
        .verbatimed()
        .styled(Style::CursorSymbol)
        .punctuated(";")
        .wrap_text("b")
        .push(Content::Symbol(t(2)))
        .adjacent_text("<", ">")
        .end();
    assert_eq!(
        built,
        vec![
            text("a"),
            punctuated(
                Content::Styled { style: Style::CursorSymbol, item: Box::new(verbatim(Content::Symbol(t(1)))) },
                ";"
            ),
            wrap_text("b"),
            Content::Adjacent {
                prefix: "<".to_string(),
                item: Box::new(Content::Symbol(t(2))),
                suffix: ">".to_string()
            },
        ]
    );
    assert_eq!(Builder::new().end(), vec![]);
    assert_eq!(Builder::new().text("x").wrap(), Content::Wrap(vec![text("x")]));
    assert_eq!(Builder::new().text("x").lines(), Content::Lines(vec![text("x")]));
    assert_eq!(
        Builder::new().text("x").indented(),
        Content::Indented(Box::new(Content::Lines(vec![text("x")])))
    );
    assert_eq!(
        ExampleStyles::ambig(),
        ExampleStyles {
            before_cursor: Style::AmbigSymbols,
            on_cursor: Style::AmbigSymbols,
            after_cursor: Style::AmbigSymbols
        }
    );
    assert_eq!(
        ExampleStyles::new(),
        ExampleStyles {
            before_cursor: Style::ObservedSymbols,
            on_cursor: Style::CursorSymbol,
            after_cursor: Style::UnobservedSymbols
        }
    );
}
