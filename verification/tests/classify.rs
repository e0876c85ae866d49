use lalrpop::automaton::{Action, Conflict, Item, LR0Item, State, StateIndex};
use lalrpop::classification::{ConflictClassification, Pattern};
use lalrpop::error::ErrorReportingCx;
use lalrpop::example::{sort_shortest_first, Example, ExampleSymbol, Reduction};
use lalrpop::grammar::{Grammar, NonterminalId, Production, Span, Symbol, TerminalId};
use lalrpop::lookahead::Lookahead;
use lalrpop::search::{find_first_pair, shows};
use lalrpop::trace::Tracer;

struct Fixed {
    shift: Vec<Example>,
    reduce: Vec<Example>,
}

impl Tracer for Fixed {
    fn backtrace_shift<'grammar>(&self, _state: StateIndex, _item: LR0Item<'grammar>) -> Vec<Example> {
        self.shift.clone()
    }

    fn backtrace_reduce<'grammar>(&self, _state: StateIndex, _item: Item<'grammar>) -> Vec<Example> {
        self.reduce.clone()
    }
}

fn nt(n: usize) -> Symbol {
    Symbol::Nonterminal(NonterminalId(n))
}

fn t(n: usize) -> Symbol {
    Symbol::Terminal(TerminalId(n))
}

fn sym(s: Symbol) -> ExampleSymbol {
    ExampleSymbol::Symbol(s)
}

fn production(head: usize, symbols: Vec<Symbol>, at: usize) -> Production {
    Production { nonterminal: NonterminalId(head), symbols, span: Span { lo: at, hi: at + 1 } }
}

fn example(symbols: Vec<Symbol>, cursor: usize, reductions: Vec<(usize, usize, usize)>) -> Example {
    Example::new(
        symbols.into_iter().map(ExampleSymbol::Symbol).collect(),
        cursor,
        reductions
            .into_iter()
            .map(|(start, end, n)| Reduction { start, end, nonterminal: NonterminalId(n) })
            .collect(),
    )
    .unwrap()
}

fn none() -> Fixed {
    Fixed { shift: vec![], reduce: vec![] }
}

// E = 0, "+" = terminal 0, num = terminal 1.
fn expression_grammar() -> Grammar {
    Grammar {
        productions: vec![
            production(0, vec![nt(0), t(0), nt(0)], 10),
            production(0, vec![t(1)], 20),
        ],
    }
}

#[test]
fn precedence_for_binary_operator() {
    let grammar = expression_grammar();
    let states: Vec<State> = vec![];
    let tracer = none();
    let cx = ErrorReportingCx::new(&grammar, &states, &tracer);
    let conflict = Conflict {
        state: StateIndex(0),
        production: &grammar.productions[0],
        action: Action::Shift(StateIndex(1)),
    };
    let action = example(vec![nt(0), t(0), nt(0)], 3, vec![(0, 3, 0)]);
    let reduce = example(vec![nt(0), t(0), nt(0)], 3, vec![(0, 3, 0), (0, 3, 0)]);
    let found = cx.classify_examples(
        Lookahead::Terminal(TerminalId(0)),
        &conflict,
        vec![action.clone()],
        vec![reduce.clone()],
    );
    assert_eq!(
        found,
        ConflictClassification::Precedence { shift: action, reduce, nonterminal: NonterminalId(0) }
    );
}

#[test]
fn ambiguity_when_lookahead_is_not_the_operator() {
    let grammar = expression_grammar();
    let states: Vec<State> = vec![];
    let tracer = none();
    let cx = ErrorReportingCx::new(&grammar, &states, &tracer);
    let conflict = Conflict {
        state: StateIndex(0),
        production: &grammar.productions[0],
        action: Action::Shift(StateIndex(1)),
    };
    let action = example(vec![nt(0), t(0), nt(0)], 3, vec![]);
    let reduce = example(vec![nt(0), t(0), nt(0)], 3, vec![(0, 3, 0)]);
    let found = cx.try_classify_ambiguity(
        Lookahead::Terminal(TerminalId(1)),
        &conflict,
        &vec![action.clone()],
        &vec![reduce.clone()],
    );
    assert_eq!(found, Some(ConflictClassification::Ambiguity { action: action.clone(), reduce: reduce.clone() }));
    let at_end = cx.try_classify_ambiguity(Lookahead::EOF, &conflict, &vec![action.clone()], &vec![reduce.clone()]);
    assert_eq!(at_end, Some(ConflictClassification::Ambiguity { action, reduce }));
}

#[test]
fn ambiguity_when_production_is_not_three_symbols() {
    let grammar = Grammar {
        productions: vec![
            production(0, vec![nt(0), t(0)], 1),
            production(0, vec![nt(0), t(0), nt(0), t(0)], 2),
            production(0, vec![nt(1), t(0), nt(0)], 3),
            production(0, vec![nt(0), t(0), nt(1)], 4),
            production(0, vec![nt(0), nt(0), nt(0)], 5),
        ],
    };
    let states: Vec<State> = vec![];
    let tracer = none();
    let cx = ErrorReportingCx::new(&grammar, &states, &tracer);
    let action = example(vec![nt(0)], 1, vec![]);
    let reduce = example(vec![nt(0)], 1, vec![]);
    for production in &grammar.productions {
        let conflict =
            Conflict { state: StateIndex(0), production, action: Action::Shift(StateIndex(1)) };
        let found = cx.try_classify_ambiguity(
            Lookahead::Terminal(TerminalId(0)),
            &conflict,
            &vec![action.clone()],
            &vec![reduce.clone()],
        );
        assert_eq!(
            found,
            Some(ConflictClassification::Ambiguity { action: action.clone(), reduce: reduce.clone() })
        );
    }
}

#[test]
fn reduce_reduce_is_never_precedence() {
    let grammar = expression_grammar();
    let states: Vec<State> = vec![];
    let tracer = none();
    let cx = ErrorReportingCx::new(&grammar, &states, &tracer);
    let conflict = Conflict {
        state: StateIndex(0),
        production: &grammar.productions[0],
        action: Action::Reduce(&grammar.productions[1]),
    };
    let action = example(vec![nt(0), t(0), nt(0)], 2, vec![]);
    let reduce = example(vec![nt(0), t(0), nt(0)], 2, vec![]);
    let found = cx.classify_examples(
        Lookahead::Terminal(TerminalId(0)),
        &conflict,
        vec![action.clone()],
        vec![reduce.clone()],
    );
    assert_eq!(found, ConflictClassification::Ambiguity { action, reduce });
}

#[test]
fn no_ambiguity_when_cursors_differ() {
    let grammar = expression_grammar();
    let states: Vec<State> = vec![];
    let tracer = none();
    let cx = ErrorReportingCx::new(&grammar, &states, &tracer);
    let conflict = Conflict {
        state: StateIndex(0),
        production: &grammar.productions[0],
        action: Action::Shift(StateIndex(1)),
    };
    let action = example(vec![nt(0), t(0), nt(0)], 2, vec![]);
    let reduce = example(vec![nt(0), t(0), nt(0)], 3, vec![]);
    let found = cx.try_classify_ambiguity(
        Lookahead::Terminal(TerminalId(0)),
        &conflict,
        &vec![action],
        &vec![reduce],
    );
    assert_eq!(found, None);
}

// Outer = 0, Opt = 1, Inner = 2; terminals: x = 0, y = 1.
fn optional_grammar() -> Grammar {
    Grammar {
        productions: vec![
            production(0, vec![nt(1), t(1)], 1),
            production(1, vec![t(0)], 2),
            production(1, vec![], 3),
            production(2, vec![t(0)], 4),
            production(2, vec![t(0), t(0)], 5),
        ],
    }
}

#[test]
fn suggest_question_for_optional_nonterminal() {
    let grammar = optional_grammar();
    let states: Vec<State> = vec![];
    let tracer = none();
    let cx = ErrorReportingCx::new(&grammar, &states, &tracer);
    let conflict = Conflict {
        state: StateIndex(0),
        production: &grammar.productions[2],
        action: Action::Shift(StateIndex(1)),
    };
    let action = example(vec![t(0), t(1)], 0, vec![(0, 1, 1), (0, 2, 0)]);
    let reduce = example(vec![nt(1), t(1)], 0, vec![(0, 1, 1), (0, 2, 0)]);
    let found = cx.classify_examples(
        Lookahead::Terminal(TerminalId(0)),
        &conflict,
        vec![action.clone()],
        vec![reduce.clone()],
    );
    assert_eq!(
        found,
        ConflictClassification::SuggestQuestion {
            shift: action,
            reduce,
            nonterminal: NonterminalId(1),
            symbol: t(0),
        }
    );
}

#[test]
fn suggest_question_with_empty_production_first() {
    let grammar = Grammar {
        productions: vec![production(1, vec![], 1), production(1, vec![nt(5)], 2)],
    };
    let states: Vec<State> = vec![];
    let tracer = none();
    let cx = ErrorReportingCx::new(&grammar, &states, &tracer);
    let conflict = Conflict {
        state: StateIndex(0),
        production: &grammar.productions[0],
        action: Action::Shift(StateIndex(1)),
    };
    let action = example(vec![t(0), t(1)], 0, vec![(0, 1, 3), (0, 2, 3)]);
    let reduce = example(vec![nt(1), t(1)], 0, vec![(0, 1, 1), (0, 2, 0)]);
    let found = cx.try_classify_inline(
        Lookahead::EOF,
        &conflict,
        &vec![action.clone()],
        &vec![reduce.clone()],
    );
    assert_eq!(
        found,
        Some(ConflictClassification::SuggestQuestion {
            shift: action,
            reduce,
            nonterminal: NonterminalId(1),
            symbol: nt(5),
        })
    );
}

#[test]
fn suggest_inline_for_two_nonempty_productions() {
    let grammar = optional_grammar();
    let states: Vec<State> = vec![];
    let tracer = none();
    let cx = ErrorReportingCx::new(&grammar, &states, &tracer);
    let conflict = Conflict {
        state: StateIndex(0),
        production: &grammar.productions[3],
        action: Action::Shift(StateIndex(1)),
    };
    let action = example(vec![t(0), t(1)], 0, vec![(0, 1, 2), (0, 2, 0)]);
    let reduce = example(vec![nt(2), t(1)], 0, vec![(0, 1, 2), (0, 2, 0)]);
    let found = cx.classify_examples(
        Lookahead::Terminal(TerminalId(0)),
        &conflict,
        vec![action.clone()],
        vec![reduce.clone()],
    );
    assert_eq!(
        found,
        ConflictClassification::SuggestInline { shift: action, reduce, nonterminal: NonterminalId(2) }
    );
}

#[test]
fn suggest_inline_for_other_production_shapes() {
    // one production; three productions; two productions of one symbol each;
    // an empty one beside one of two symbols; a nonterminal without any
    let shapes: Vec<Vec<Vec<Symbol>>> = vec![
        vec![vec![t(0)]],
        vec![vec![], vec![t(0)], vec![t(1)]],
        vec![vec![t(0)], vec![t(1)]],
        vec![vec![], vec![t(0), t(1)]],
        vec![vec![], vec![]],
        vec![],
    ];
    for shape in shapes {
        let grammar = Grammar {
            productions: shape.into_iter().map(|symbols| production(1, symbols, 0)).collect(),
        };
        let head = production(0, vec![nt(1)], 9);
        let states: Vec<State> = vec![];
        let tracer = none();
        let cx = ErrorReportingCx::new(&grammar, &states, &tracer);
        let conflict =
            Conflict { state: StateIndex(0), production: &head, action: Action::Shift(StateIndex(1)) };
        let action = example(vec![t(0), t(1)], 0, vec![(0, 1, 1), (0, 2, 0)]);
        let reduce = example(vec![nt(1), t(1)], 0, vec![(0, 1, 1), (0, 2, 0)]);
        let found = cx.try_classify_inline(
            Lookahead::EOF,
            &conflict,
            &vec![action.clone()],
            &vec![reduce.clone()],
        );
        assert_eq!(
            found,
            Some(ConflictClassification::SuggestInline {
                shift: action,
                reduce,
                nonterminal: NonterminalId(1),
            })
        );
    }
}

#[test]
fn no_inline_without_two_reductions_or_with_equal_nonterminals() {
    let grammar = optional_grammar();
    let states: Vec<State> = vec![];
    let tracer = none();
    let cx = ErrorReportingCx::new(&grammar, &states, &tracer);
    let conflict = Conflict {
        state: StateIndex(0),
        production: &grammar.productions[0],
        action: Action::Shift(StateIndex(1)),
    };
    let two = example(vec![t(0), t(1)], 0, vec![(0, 1, 1), (0, 2, 0)]);
    let one = example(vec![t(0), t(1)], 0, vec![(0, 1, 1)]);
    let three = example(vec![t(0), t(1)], 0, vec![(0, 1, 1), (0, 2, 0), (0, 2, 0)]);
    let same = example(vec![t(0), t(1)], 0, vec![(0, 1, 1), (0, 2, 1)]);
    let other_suffix = example(vec![t(0), t(0)], 0, vec![(0, 1, 1), (0, 2, 0)]);
    let la = Lookahead::EOF;
    assert_eq!(cx.try_classify_inline(la, &conflict, &vec![one.clone()], &vec![two.clone()]), None);
    assert_eq!(cx.try_classify_inline(la, &conflict, &vec![two.clone()], &vec![one]), None);
    assert_eq!(cx.try_classify_inline(la, &conflict, &vec![two.clone()], &vec![three]), None);
    assert_eq!(cx.try_classify_inline(la, &conflict, &vec![two.clone()], &vec![same.clone()]), None);
    assert_eq!(cx.try_classify_inline(la, &conflict, &vec![other_suffix], &vec![two.clone()]), None);
    // equal nonterminals on the action side do not matter
    assert!(cx.try_classify_inline(la, &conflict, &vec![same], &vec![two]).is_some());
}

#[test]
fn insufficient_lookahead_cites_shortest_of_each_side() {
    let grammar = expression_grammar();
    let states: Vec<State> = vec![];
    let tracer = none();
    let cx = ErrorReportingCx::new(&grammar, &states, &tracer);
    let conflict = Conflict {
        state: StateIndex(0),
        production: &grammar.productions[1],
        action: Action::Shift(StateIndex(1)),
    };
    let long_action = example(vec![t(0), t(0), t(0)], 1, vec![(0, 1, 0)]);
    let short_action = example(vec![t(0)], 1, vec![(0, 1, 0)]);
    let long_reduce = example(vec![t(1), t(1), t(1), t(1)], 1, vec![(0, 1, 0)]);
    let short_reduce = example(vec![t(1), t(1)], 1, vec![(0, 1, 0)]);
    let found = cx.classify_examples(
        Lookahead::Terminal(TerminalId(0)),
        &conflict,
        vec![long_action, short_action.clone()],
        vec![long_reduce, short_reduce.clone()],
    );
    assert_eq!(
        found,
        ConflictClassification::InsufficientLookahead { action: short_action, reduce: short_reduce }
    );
}

#[test]
fn naive_when_a_side_has_no_example() {
    let grammar = expression_grammar();
    let states: Vec<State> = vec![];
    let tracer = none();
    let cx = ErrorReportingCx::new(&grammar, &states, &tracer);
    let conflict = Conflict {
        state: StateIndex(0),
        production: &grammar.productions[0],
        action: Action::Shift(StateIndex(1)),
    };
    let some = example(vec![nt(0), t(0), nt(0)], 3, vec![(0, 3, 0)]);
    let la = Lookahead::Terminal(TerminalId(0));
    assert_eq!(cx.classify_examples(la, &conflict, vec![some.clone()], vec![]), ConflictClassification::Naive);
    assert_eq!(cx.classify_examples(la, &conflict, vec![], vec![some]), ConflictClassification::Naive);
    assert_eq!(cx.classify_examples(la, &conflict, vec![], vec![]), ConflictClassification::Naive);
}

#[test]
fn ambiguity_is_tried_before_inlining() {
    let grammar = optional_grammar();
    let states: Vec<State> = vec![];
    let tracer = none();
    let cx = ErrorReportingCx::new(&grammar, &states, &tracer);
    let conflict = Conflict {
        state: StateIndex(0),
        production: &grammar.productions[0],
        action: Action::Shift(StateIndex(1)),
    };
    // the first pair suggests inlining, a later pair is the same input
    let inline_action = example(vec![t(0), t(1)], 0, vec![(0, 1, 1), (0, 2, 0)]);
    let inline_reduce = example(vec![nt(1), t(1)], 0, vec![(0, 1, 1), (0, 2, 0)]);
    let same = example(vec![t(1), t(1)], 1, vec![]);
    let found = cx.classify_examples(
        Lookahead::EOF,
        &conflict,
        vec![inline_action, same.clone()],
        vec![inline_reduce, same.clone()],
    );
    assert_eq!(found, ConflictClassification::Ambiguity { action: same.clone(), reduce: same });
}

#[test]
fn first_pair_goes_row_by_row() {
    let a = example(vec![t(0)], 0, vec![]);
    let b = example(vec![t(1)], 0, vec![]);
    let c = example(vec![t(2)], 0, vec![]);
    let actions = vec![a.clone(), b.clone(), c.clone()];
    // (1, 2) and (2, 0) both fit; (1, 2) comes first
    let reduces = vec![c.clone(), a.clone(), b.clone()];
    assert_eq!(find_first_pair(Pattern::SameInput, &actions, &reduces), Some((0, 1)));
    let reduces = vec![c.clone(), c.clone(), b.clone()];
    assert_eq!(find_first_pair(Pattern::SameInput, &actions, &reduces), Some((1, 2)));
    let reduces = vec![c.clone(), c.clone(), c.clone()];
    assert_eq!(find_first_pair(Pattern::SameInput, &actions, &reduces), Some((2, 0)));
    let none = vec![example(vec![t(3)], 0, vec![])];
    assert_eq!(find_first_pair(Pattern::SameInput, &actions, &none), None);
    assert_eq!(find_first_pair(Pattern::SameInput, &actions, &vec![]), None);
    assert_eq!(find_first_pair(Pattern::SameInput, &vec![], &reduces), None);
}

#[test]
fn shows_compares_symbols_and_cursor() {
    let a = example(vec![t(0), t(1)], 1, vec![(0, 1, 0)]);
    let same = example(vec![t(0), t(1)], 1, vec![]);
    let shorter = example(vec![t(0)], 1, vec![]);
    let moved = example(vec![t(0), t(1)], 2, vec![]);
    assert!(shows(Pattern::SameInput, &a, &same));
    assert!(!shows(Pattern::SameInput, &a, &shorter));
    assert!(!shows(Pattern::SameInput, &a, &moved));
    let with_gap = Example::new(vec![sym(t(0)), ExampleSymbol::Epsilon], 1, vec![]).unwrap();
    assert!(!shows(Pattern::SameInput, &a, &with_gap));
}

#[test]
fn inner_suffix_is_what_follows_the_first_reduction() {
    let grammar = expression_grammar();
    let states: Vec<State> = vec![];
    let tracer = none();
    let cx = ErrorReportingCx::new(&grammar, &states, &tracer);
    let e = example(vec![t(0), t(1), t(2)], 0, vec![(0, 1, 1), (0, 3, 0)]);
    assert_eq!(cx.inner_suffix(&e), &[sym(t(1)), sym(t(2))][..]);
    let whole = example(vec![t(0), t(1)], 0, vec![(0, 2, 1)]);
    assert_eq!(cx.inner_suffix(&whole), &[][..]);
}

#[test]
fn classify_gathers_through_the_tracer() {
    let grammar = expression_grammar();
    let states = vec![State {
        index: StateIndex(0),
        items: vec![
            Item { production: &grammar.productions[0], index: 1, lookahead: Lookahead::EOF },
            Item {
                production: &grammar.productions[0],
                index: 3,
                lookahead: Lookahead::Terminal(TerminalId(0)),
            },
        ],
        conflicts: vec![],
    }];
    let shift = example(vec![nt(0), t(0), nt(0), t(0), nt(0)], 3, vec![(2, 5, 0), (0, 5, 0)]);
    let reduce = example(vec![nt(0), t(0), nt(0), t(0), nt(0)], 3, vec![(0, 3, 0), (0, 5, 0)]);
    let tracer = Fixed { shift: vec![shift.clone()], reduce: vec![reduce.clone()] };
    let cx = ErrorReportingCx::new(&grammar, &states, &tracer);
    let conflict = Conflict {
        state: StateIndex(0),
        production: &grammar.productions[0],
        action: Action::Shift(StateIndex(1)),
    };
    let found = cx.classify(Lookahead::Terminal(TerminalId(0)), &conflict);
    let again = cx.classify(Lookahead::Terminal(TerminalId(0)), &conflict);
    assert_eq!(
        found,
        ConflictClassification::Precedence { shift, reduce, nonterminal: NonterminalId(0) }
    );
    assert_eq!(found, again);
}

#[test]
fn classify_without_shifting_item_is_naive() {
    let grammar = expression_grammar();
    // no item of the state can shift "+"
    let states = vec![State {
        index: StateIndex(0),
        items: vec![Item {
            production: &grammar.productions[0],
            index: 3,
            lookahead: Lookahead::EOF,
        }],
        conflicts: vec![],
    }];
    let e = example(vec![nt(0)], 1, vec![(0, 1, 0)]);
    let tracer = Fixed { shift: vec![e.clone()], reduce: vec![e] };
    let cx = ErrorReportingCx::new(&grammar, &states, &tracer);
    let conflict = Conflict {
        state: StateIndex(0),
        production: &grammar.productions[0],
        action: Action::Shift(StateIndex(1)),
    };
    assert_eq!(
        cx.classify(Lookahead::Terminal(TerminalId(0)), &conflict),
        ConflictClassification::Naive
    );
}

#[test]
fn sorting_is_stable_and_shortest_first() {
    let a = example(vec![t(0), t(0), t(0)], 0, vec![]);
    let b = example(vec![t(1)], 0, vec![]);
    let c = example(vec![t(2), t(2)], 0, vec![]);
    let d = example(vec![t(3)], 0, vec![]);
    let e = example(vec![t(4), t(4), t(4)], 0, vec![]);
    let f = example(vec![], 0, vec![]);
    let mut examples = vec![a.clone(), b.clone(), c.clone(), d.clone(), e.clone(), f.clone()];
    sort_shortest_first(&mut examples);
    assert_eq!(examples, vec![f, b, d, c, a, e]);
    for i in 0..examples.len() - 1 {
        assert!(examples[i].len() <= examples[i + 1].len());
    }
    let mut empty: Vec<Example> = vec![];
    sort_shortest_first(&mut empty);
    assert!(empty.is_empty());
}
