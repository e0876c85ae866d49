//! Examples: concrete symbol sequences that lead to a conflict, each with
//! the reductions that fold parts of it and a cursor at the conflict.

use vstd::prelude::*;
use crate::grammar::{NonterminalId, Symbol};

verus! {

/// One place of an example: a grammar symbol, or the empty place that a
/// reduction of no symbols leaves.
#[derive(Clone, Copy, Debug, PartialEq, Eq, Hash, Structural)]
pub enum ExampleSymbol {
    Symbol(Symbol),
    Epsilon,
}

/// The places `start..end` of an example, folded into `nonterminal`.
#[derive(Clone, Copy, Debug, PartialEq, Eq, Hash, Structural)]
pub struct Reduction {
    pub start: usize,
    pub end: usize,
    pub nonterminal: NonterminalId,
}

/// What an example is, as a mathematical value.
pub struct ExampleView {
    pub symbols: Seq<ExampleSymbol>,
    pub cursor: nat,
    pub reductions: Seq<Reduction>,
}

impl ExampleView {
    /// The cursor lies within the symbols; every reduction folds a range of
    /// them; the reductions are ordered by where they start, the innermost
    /// first: none starts before one that follows it.
    pub open spec fn well_formed(self) -> bool {
        &&& self.cursor <= self.symbols.len()
        &&& forall|i: int|
            0 <= i < self.reductions.len() ==> (#[trigger] self.reductions[i]).start
                <= self.reductions[i].end <= self.symbols.len()
        &&& forall|i: int, j: int|
            0 <= i <= j < self.reductions.len() ==> (#[trigger] self.reductions[i]).start >= (
            #[trigger] self.reductions[j]).start
    }

    /// The symbols behind the end of the first reduction.
    pub open spec fn inner_suffix(self) -> Seq<ExampleSymbol>
        recommends
            self.reductions.len() > 0,
            self.well_formed(),
    {
        self.symbols.skip(self.reductions[0].end as int)
    }
}

/// A symbol sequence with a cursor and reductions. Every value is well
/// formed: `new` admits no other.
#[derive(Debug, PartialEq, Eq)]
pub struct Example {
    symbols: Vec<ExampleSymbol>,
    cursor: usize,
    reductions: Vec<Reduction>,
}

impl View for Example {
    type V = ExampleView;

    closed spec fn view(&self) -> ExampleView {
        ExampleView {
            symbols: self.symbols@,
            cursor: self.cursor as nat,
            reductions: self.reductions@,
        }
    }
}

/// The views of a list of examples.
pub open spec fn example_views(examples: Seq<Example>) -> Seq<ExampleView> {
    examples.map_values(|e: Example| e@)
}

impl Example {
    #[verifier::type_invariant]
    spec fn holds_well_formed(self) -> bool {
        self@.well_formed()
    }

    /// The example of these parts, where they are well formed.
    pub fn new(symbols: Vec<ExampleSymbol>, cursor: usize, reductions: Vec<Reduction>) -> (r:
        Option<Example>)
        ensures
            r is Some <==> (ExampleView {
                symbols: symbols@,
                cursor: cursor as nat,
                reductions: reductions@,
            }).well_formed(),
            r is Some ==> r->0@ == (ExampleView {
                symbols: symbols@,
                cursor: cursor as nat,
                reductions: reductions@,
            }),
    {
        let ghost parts = ExampleView {
            symbols: symbols@,
            cursor: cursor as nat,
            reductions: reductions@,
        };
        if cursor > symbols.len() {
            return None;
        }
        let mut i: usize = 0;
        while i < reductions.len()
            invariant
                i <= reductions.len(),
                parts == (ExampleView {
                    symbols: symbols@,
                    cursor: cursor as nat,
                    reductions: reductions@,
                }),
                forall|k: int|
                    0 <= k < i ==> (#[trigger] reductions@[k]).start <= reductions@[k].end
                        <= symbols@.len(),
                forall|k: int|
                    0 < k < i ==> (#[trigger] reductions@[k - 1]).start >= reductions@[k].start,
            decreases reductions.len() - i,
        {
            let reduction = reductions[i];
            if reduction.start > reduction.end || reduction.end > symbols.len() {
                assert(!(parts.reductions[i as int].start <= parts.reductions[i as int].end
                    <= parts.symbols.len()));
                return None;
            }
            if i > 0 && reductions[i - 1].start < reduction.start {
                assert(!(parts.reductions[i - 1].start >= parts.reductions[i as int].start));
                return None;
            }
            i += 1;
        }
        proof {
            lemma_steps_give_order(reductions@);
        }
        Some(Example { symbols, cursor, reductions })
    }

    /// The symbols.
    pub fn symbols(&self) -> (r: &Vec<ExampleSymbol>)
        ensures
            r@ == self@.symbols,
            self@.well_formed(),
    {
        proof {
            use_type_invariant(self);
        }
        &self.symbols
    }

    /// The number of symbols.
    pub fn len(&self) -> (r: usize)
        ensures
            r == self@.symbols.len(),
            self@.well_formed(),
    {
        proof {
            use_type_invariant(self);
        }
        self.symbols.len()
    }

    /// How far into the symbols the conflict lies.
    pub fn cursor(&self) -> (r: usize)
        ensures
            r == self@.cursor,
            self@.well_formed(),
    {
        proof {
            use_type_invariant(self);
        }
        self.cursor
    }

    /// The reductions, ordered by where they start, the innermost first.
    pub fn reductions(&self) -> (r: &Vec<Reduction>)
        ensures
            r@ == self@.reductions,
            self@.well_formed(),
    {
        proof {
            use_type_invariant(self);
        }
        &self.reductions
    }
}

impl Clone for Example {
    fn clone(&self) -> (r: Self)
        ensures
            r@ == self@,
    {
        proof {
            use_type_invariant(self);
        }
        let symbols = self.symbols.clone();
        let reductions = self.reductions.clone();
        assert(symbols@ =~= self.symbols@);
        assert(reductions@ =~= self.reductions@);
        Example { symbols, cursor: self.cursor, reductions }
    }
}

/// Where an example of `length` symbols goes in `sorted`: behind the last
/// entry that is not longer than it.
pub open spec fn slot(sorted: Seq<ExampleView>, length: nat) -> int
    decreases sorted.len(),
{
    if sorted.len() == 0 {
        0
    } else if sorted.last().symbols.len() <= length {
        sorted.len() as int
    } else {
        slot(sorted.drop_last(), length)
    }
}

/// The examples ordered by their number of symbols, shortest first;
/// examples of one length keep the order in which they came.
pub open spec fn shortest_first(examples: Seq<ExampleView>) -> Seq<ExampleView>
    decreases examples.len(),
{
    if examples.len() == 0 {
        examples
    } else {
        let sorted = shortest_first(examples.drop_last());
        sorted.insert(slot(sorted, examples.last().symbols.len()), examples.last())
    }
}

/// No example is longer than one behind it.
pub open spec fn is_shortest_first(examples: Seq<ExampleView>) -> bool {
    forall|i: int, j: int|
        0 <= i <= j < examples.len() ==> (#[trigger] examples[i]).symbols.len() <= (
        #[trigger] examples[j]).symbols.len()
}

/// The examples of `examples` that have `length` symbols, in their order.
pub open spec fn of_length(examples: Seq<ExampleView>, length: nat) -> Seq<ExampleView> {
    examples.filter(|e: ExampleView| e.symbols.len() == length)
}

/// Orders the examples by their number of symbols, shortest first; examples
/// of one length keep their order.
pub fn sort_shortest_first(examples: &mut Vec<Example>)
    ensures
        example_views(final(examples)@) == shortest_first(example_views(old(examples)@)),
        is_shortest_first(example_views(final(examples)@)),
        final(examples)@.len() == old(examples)@.len(),
{
    let ghost given = example_views(examples@);
    let mut i: usize = 0;
    assert(given.take(0) =~= Seq::<ExampleView>::empty());
    assert(example_views(examples@).skip(0) =~= given.skip(0));
    while i < examples.len()
        invariant
            i <= examples.len(),
            examples.len() == given.len(),
            example_views(examples@).take(i as int) == shortest_first(given.take(i as int)),
            example_views(examples@).skip(i as int) == given.skip(i as int),
        decreases examples.len() - i,
    {
        let ghost before = example_views(examples@);
        let ghost sorted = before.take(i as int);
        assert(before[i as int] == before.skip(i as int)[0]);
        let example = examples.remove(i);
        let length = example.len();
        assert(example_views(examples@) =~= before.remove(i as int));
        let mut j: usize = i;
        assert(sorted.take(i as int) =~= sorted);
        loop
            invariant
                j <= i,
                i < given.len(),
                examples.len() + 1 == given.len(),
                example_views(examples@) == before.remove(i as int),
                sorted == before.take(i as int),
                before.len() == given.len(),
                length == example@.symbols.len(),
                slot(sorted, length as nat) == slot(sorted.take(j as int), length as nat),
            ensures
                slot(sorted, length as nat) == j,
            decreases j,
        {
            if j == 0 {
                break ;
            }
            assert(example_views(examples@)[j - 1] == sorted[j - 1]);
            assert(sorted.take(j as int).last() == sorted[j - 1]);
            if examples[j - 1].len() <= length {
                break ;
            }
            assert(sorted.take(j as int).drop_last() =~= sorted.take(j - 1));
            j -= 1;
        }
        let ghost removed = example_views(examples@);
        examples.insert(j, example);
        proof {
            let after = example_views(examples@);
            assert(after =~= removed.insert(j as int, example@));
            assert(after.take(i + 1) =~= sorted.insert(j as int, example@));
            assert(after.skip(i + 1) =~= given.skip(i + 1)) by {
                assert forall|k: int| 0 <= k < given.len() - i - 1 implies (
                #[trigger] after.skip(i + 1)[k]) == given.skip(i + 1)[k] by {
                    assert(before.skip(i as int)[k + 1] == given.skip(i as int)[k + 1]);
                }
            }
            assert(given.take(i + 1).drop_last() =~= given.take(i as int));
            assert(given.take(i + 1).last() == given[i as int]);
            assert(given[i as int] == given.skip(i as int)[0]);
        }
        i += 1;
    }
    proof {
        assert(given.take(i as int) =~= given);
        assert(example_views(examples@).take(i as int) =~= example_views(examples@));
        lemma_shortest_first_is_sorted(given);
    }
}

/// An example goes behind every entry that is not longer than it, and
/// before every entry that is longer.
pub proof fn lemma_slot(sorted: Seq<ExampleView>, length: nat)
    requires
        is_shortest_first(sorted),
    ensures
        0 <= slot(sorted, length) <= sorted.len(),
        forall|k: int| 0 <= k < slot(sorted, length) ==> (#[trigger] sorted[k]).symbols.len() <= length,
        forall|k: int|
            slot(sorted, length) <= k < sorted.len() ==> (#[trigger] sorted[k]).symbols.len() > length,
    decreases sorted.len(),
{
    if sorted.len() == 0 {
    } else if sorted.last().symbols.len() <= length {
        assert forall|k: int| 0 <= k < sorted.len() implies (#[trigger] sorted[k]).symbols.len()
            <= length by {
            assert(sorted[k].symbols.len() <= sorted[sorted.len() - 1].symbols.len());
        }
    } else {
        let front = sorted.drop_last();
        assert forall|i: int, j: int| 0 <= i <= j < front.len() implies (
        #[trigger] front[i]).symbols.len() <= (#[trigger] front[j]).symbols.len() by {
            assert(sorted[i].symbols.len() <= sorted[j].symbols.len());
        }
        lemma_slot(front, length);
        assert forall|k: int| 0 <= k < slot(sorted, length) implies (
        #[trigger] sorted[k]).symbols.len() <= length by {
            assert(front[k].symbols.len() <= length);
        }
        assert forall|k: int| slot(sorted, length) <= k < sorted.len() implies (
        #[trigger] sorted[k]).symbols.len() > length by {
            if k < front.len() {
                assert(front[k].symbols.len() > length);
            }
        }
    }
}

/// After ordering, no example is longer than one behind it, and there are
/// as many examples as before.
pub proof fn lemma_shortest_first_is_sorted(examples: Seq<ExampleView>)
    ensures
        shortest_first(examples).len() == examples.len(),
        is_shortest_first(shortest_first(examples)),
    decreases examples.len(),
{
    if examples.len() > 0 {
        let sorted = shortest_first(examples.drop_last());
        let last = examples.last();
        lemma_shortest_first_is_sorted(examples.drop_last());
        lemma_slot(sorted, last.symbols.len());
        let at = slot(sorted, last.symbols.len());
        let out = sorted.insert(at, last);
        assert forall|i: int, j: int| 0 <= i <= j < out.len() implies (
        #[trigger] out[i]).symbols.len() <= (#[trigger] out[j]).symbols.len() by {
            if i < at && j < at {
                assert(sorted[i].symbols.len() <= sorted[j].symbols.len());
            } else if i < at && j == at {
                assert(sorted[i].symbols.len() <= last.symbols.len());
            } else if i < at {
                assert(sorted[i].symbols.len() <= last.symbols.len());
                assert(sorted[j - 1].symbols.len() > last.symbols.len());
            } else if i == at && j > at {
                assert(sorted[j - 1].symbols.len() > last.symbols.len());
            } else if i > at {
                assert(sorted[i - 1].symbols.len() <= sorted[j - 1].symbols.len());
            }
        }
    }
}

/// Ordering neither adds nor drops an example.
pub proof fn lemma_shortest_first_permutes(examples: Seq<ExampleView>)
    ensures
        shortest_first(examples).to_multiset() == examples.to_multiset(),
    decreases examples.len(),
{
    broadcast use vstd::seq_lib::group_to_multiset_ensures;

    if examples.len() > 0 {
        let front = examples.drop_last();
        let sorted = shortest_first(front);
        let last = examples.last();
        lemma_shortest_first_permutes(front);
        lemma_shortest_first_is_sorted(front);
        lemma_slot(sorted, last.symbols.len());
        assert(examples =~= front.push(last));
    }
}

/// Ordering keeps the examples of each length in the order in which they
/// were given.
pub proof fn lemma_shortest_first_is_stable(examples: Seq<ExampleView>, length: nat)
    ensures
        of_length(shortest_first(examples), length) == of_length(examples, length),
    decreases examples.len(),
{
    if examples.len() > 0 {
        let pred = |e: ExampleView| e.symbols.len() == length;
        let front = examples.drop_last();
        let sorted = shortest_first(front);
        let last = examples.last();
        let at = slot(sorted, last.symbols.len());
        lemma_shortest_first_is_stable(front, length);
        lemma_shortest_first_is_sorted(front);
        lemma_slot(sorted, last.symbols.len());
        let head = sorted.take(at);
        let tail = sorted.skip(at);
        let one = seq![last];
        assert(sorted.insert(at, last) =~= head + one + tail);
        assert(sorted =~= head + tail);
        assert(examples =~= front.push(last));
        Seq::filter_distributes_over_add(head + one, tail, pred);
        Seq::filter_distributes_over_add(head, one, pred);
        Seq::filter_distributes_over_add(head, tail, pred);
        front.lemma_filter_push(last, pred);
        assert(one =~= Seq::<ExampleView>::empty().push(last));
        Seq::<ExampleView>::empty().lemma_filter_push(last, pred);
        assert(Seq::<ExampleView>::empty().filter(pred) =~= Seq::<ExampleView>::empty()) by {
            Seq::<ExampleView>::empty().lemma_filter_len(pred);
        }
        if last.symbols.len() == length {
            assert(tail.filter(pred) =~= Seq::<ExampleView>::empty()) by {
                assert forall|k: int| 0 <= k < tail.len() implies !pred(#[trigger] tail[k]) by {
                    assert(sorted[at + k].symbols.len() > length);
                }
                tail.lemma_all_neg_filter_empty(pred);
            }
            assert(one.filter(pred) =~= one);
            assert(head.filter(pred) + one + Seq::<ExampleView>::empty() =~= (head.filter(pred)
                + Seq::<ExampleView>::empty()).push(last));
        } else {
            assert(one.filter(pred) =~= Seq::<ExampleView>::empty());
            assert(head.filter(pred) + Seq::<ExampleView>::empty() + tail.filter(pred)
                =~= head.filter(pred) + tail.filter(pred));
        }
    }
}

/// Starts that do not rise from one reduction to the next do not rise
/// between any two.
proof fn lemma_steps_give_order(reductions: Seq<Reduction>)
    requires
        forall|k: int| 0 < k < reductions.len() ==> (#[trigger] reductions[k - 1]).start >= reductions[k].start,
    ensures
        forall|i: int, j: int|
            0 <= i <= j < reductions.len() ==> (#[trigger] reductions[i]).start >= (
            #[trigger] reductions[j]).start,
{
    assert forall|i: int, j: int| 0 <= i <= j < reductions.len() implies (
    #[trigger] reductions[i]).start >= (#[trigger] reductions[j]).start by {
        lemma_steps_reach(reductions, i, j);
    }
}

proof fn lemma_steps_reach(reductions: Seq<Reduction>, i: int, j: int)
    requires
        forall|k: int| 0 < k < reductions.len() ==> (#[trigger] reductions[k - 1]).start >= reductions[k].start,
        0 <= i <= j < reductions.len(),
    ensures
        reductions[i].start >= reductions[j].start,
    decreases j - i,
{
    if i < j {
        lemma_steps_reach(reductions, i, j - 1);
        assert(reductions[j - 1].start >= reductions[j].start);
    }
}

} // verus!
