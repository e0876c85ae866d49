//! The items of a state that can shift a terminal, grouped by their form
//! without lookahead.

use vstd::prelude::*;
use crate::automaton::{Item, ItemView, LR0Item, LR0ItemView};
use crate::grammar::{Symbol, TerminalId};
use crate::lookahead::{Lookahead, LookaheadSet};

verus! {

/// An item without lookahead, and the lookaheads of the items of a state
/// that have this form.
#[derive(Debug, PartialEq, Eq)]
pub struct ShiftGroup<'grammar> {
    pub item: LR0Item<'grammar>,
    pub lookaheads: LookaheadSet,
}

pub struct ShiftGroupView {
    pub item: LR0ItemView,
    pub lookaheads: Set<Lookahead>,
}

impl<'grammar> View for ShiftGroup<'grammar> {
    type V = ShiftGroupView;

    open spec fn view(&self) -> ShiftGroupView {
        ShiftGroupView { item: self.item@, lookaheads: self.lookaheads@ }
    }
}

/// The views of a list of groups.
pub open spec fn group_views<'grammar>(groups: Seq<ShiftGroup<'grammar>>) -> Seq<ShiftGroupView> {
    groups.map_values(|g: ShiftGroup<'grammar>| g@)
}

/// The items among `items` whose dot stands right before `terminal`.
pub open spec fn shifting_items(items: Seq<ItemView>, terminal: TerminalId) -> Seq<ItemView> {
    items.filter(|i: ItemView| i.shifts(Symbol::Terminal(terminal)))
}

/// The forms without lookahead of `items`, each once, in the order in which
/// they first occur.
pub open spec fn distinct_forms(items: Seq<ItemView>) -> Seq<LR0ItemView>
    decreases items.len(),
{
    if items.len() == 0 {
        Seq::empty()
    } else {
        let before = distinct_forms(items.drop_last());
        if before.contains(items.last().to_lr0()) {
            before
        } else {
            before.push(items.last().to_lr0())
        }
    }
}

/// Whether some item among `items` has the form `form`.
pub open spec fn has_form(items: Seq<ItemView>, form: LR0ItemView) -> bool {
    exists|k: int| 0 <= k < items.len() && (#[trigger] items[k]).to_lr0() == form
}

/// The lookaheads of those of `items` that have the form `form`.
pub open spec fn lookaheads_of(items: Seq<ItemView>, form: LR0ItemView) -> Set<Lookahead> {
    Set::new(
        |lookahead: Lookahead|
            exists|k: int|
                0 <= k < items.len() && (#[trigger] items[k]).to_lr0() == form && items[k].lookahead
                    == lookahead,
    )
}

/// The groups of `items`: one for each form, in the order in which the
/// forms first occur, with all the lookaheads that `items` has for it.
pub open spec fn groups_of(items: Seq<ItemView>) -> Seq<ShiftGroupView> {
    distinct_forms(items).map_values(
        |form: LR0ItemView| ShiftGroupView { item: form, lookaheads: lookaheads_of(items, form) },
    )
}

/// The groups of the items of a state that can shift `terminal`.
pub open spec fn shift_groups(items: Seq<ItemView>, terminal: TerminalId) -> Seq<ShiftGroupView> {
    groups_of(shifting_items(items, terminal))
}

/// Every form among the distinct forms is the form of an item, no form
/// occurs twice, and the form of every item is among them.
pub proof fn lemma_distinct_forms(items: Seq<ItemView>)
    ensures
        distinct_forms(items).no_duplicates(),
        forall|k: int|
            0 <= k < items.len() ==> distinct_forms(items).contains((#[trigger] items[k]).to_lr0()),
        forall|p: int|
            0 <= p < distinct_forms(items).len() ==> has_form(
                items,
                #[trigger] distinct_forms(items)[p],
            ),
    decreases items.len(),
{
    if items.len() > 0 {
        let front = items.drop_last();
        let before = distinct_forms(front);
        let last = items.last().to_lr0();
        lemma_distinct_forms(front);
        let now = distinct_forms(items);
        assert forall|k: int| 0 <= k < items.len() implies now.contains(
            (#[trigger] items[k]).to_lr0(),
        ) by {
            if k < front.len() {
                assert(before.contains(front[k].to_lr0()));
                let p = choose|p: int| 0 <= p < before.len() && before[p] == front[k].to_lr0();
                assert(now[p] == items[k].to_lr0());
            } else if before.contains(last) {
            } else {
                assert(now[before.len() as int] == last);
            }
        }
        assert forall|p: int| 0 <= p < now.len() implies has_form(items, #[trigger] now[p]) by {
            if p < before.len() {
                assert(has_form(front, before[p]));
                let k = choose|k: int|
                    0 <= k < front.len() && (#[trigger] front[k]).to_lr0() == before[p];
                assert(items[k].to_lr0() == now[p]);
            } else {
                assert(items[items.len() - 1].to_lr0() == now[p]);
            }
        }
    }
}

/// Groups `items` that can shift `terminal` by their form without
/// lookahead. The groups stand in the order in which their forms first
/// occur among the items, and each holds the lookaheads of all the items of
/// its form.
pub fn group_shift_items<'grammar>(items: &Vec<Item<'grammar>>, terminal: TerminalId) -> (r: Vec<
    ShiftGroup<'grammar>,
>)
    ensures
        group_views(r@) == shift_groups(items@.map_values(|i: Item<'grammar>| i@), terminal),
{
    let symbol = Symbol::Terminal(terminal);
    let ghost all = items@.map_values(|i: Item<'grammar>| i@);
    let ghost shifts = |i: ItemView| i.shifts(Symbol::Terminal(terminal));
    let mut groups: Vec<ShiftGroup<'grammar>> = Vec::new();
    let mut n: usize = 0;
    proof {
        assert(all.take(0) =~= Seq::<ItemView>::empty());
        assert(all.take(0).filter(shifts) =~= Seq::<ItemView>::empty()) by {
            all.take(0).lemma_filter_len(shifts);
        }
        assert(group_views(groups@) =~= groups_of(Seq::<ItemView>::empty()));
    }
    while n < items.len()
        invariant
            n <= items.len(),
            all == items@.map_values(|i: Item<'grammar>| i@),
            shifts == (|i: ItemView| i.shifts(Symbol::Terminal(terminal))),
            symbol == Symbol::Terminal(terminal),
            group_views(groups@) == groups_of(all.take(n as int).filter(shifts)),
        decreases items.len() - n,
    {
        let item = &items[n];
        let ghost seen = all.take(n as int).filter(shifts);
        proof {
            assert(all.take(n + 1) =~= all.take(n as int).push(item@));
            all.take(n as int).lemma_filter_push(item@, shifts);
        }
        if item.can_shift() && item.production.symbols[item.index] == symbol {
            let form = item.to_lr0();
            let ghost now = seen.push(item@);
            proof {
                assert(now.drop_last() =~= seen);
                assert(now.last() == item@);
                lemma_distinct_forms(seen);
            }
            let mut at: usize = 0;
            assert(groups_of(seen).len() == distinct_forms(seen).len());
            loop
                invariant
                    at <= groups.len(),
                    form@ == item@.to_lr0(),
                    group_views(groups@) == groups_of(seen),
                    groups@.len() == distinct_forms(seen).len(),
                    forall|p: int| 0 <= p < at ==> #[trigger] distinct_forms(seen)[p] != form@,
                ensures
                    at < groups.len() ==> distinct_forms(seen)[at as int] == form@,
                decreases groups.len() - at,
            {
                if at >= groups.len() {
                    break ;
                }
                assert(group_views(groups@)[at as int] == groups@[at as int]@);
                assert(groups_of(seen)[at as int].item == distinct_forms(seen)[at as int]);
                if groups[at].item.same_as(&form) {
                    break ;
                }
                at += 1;
            }
            if at < groups.len() {
                assert(distinct_forms(seen).contains(form@));
                let ghost before = group_views(groups@);
                let mut group = groups.remove(at);
                let _ = group.lookaheads.insert(item.lookahead);
                groups.insert(at, group);
                proof {
                    let after = group_views(groups@);
                    assert(after =~= before.update(at as int, group@));
                    assert(after =~= groups_of(now)) by {
                        assert forall|p: int| 0 <= p < after.len() implies after[p] == groups_of(
                            now,
                        )[p] by {
                            let key = distinct_forms(seen)[p];
                            assert(before[p].item == key);
                            lemma_lookaheads_push(seen, item@, key);
                            if p != at {
                                assert(key != form@);
                            }
                        }
                    }
                }
            } else {
                assert(!distinct_forms(seen).contains(form@));
                let ghost before = group_views(groups@);
                let mut lookaheads = LookaheadSet::new();
                let _ = lookaheads.insert(item.lookahead);
                let group = ShiftGroup { item: form, lookaheads };
                groups.push(group);
                proof {
                    let after = group_views(groups@);
                    assert(after =~= before.push(group@));
                    assert(after =~= groups_of(now)) by {
                        assert forall|p: int| 0 <= p < after.len() implies after[p] == groups_of(
                            now,
                        )[p] by {
                            let key = distinct_forms(now)[p];
                            lemma_lookaheads_push(seen, item@, key);
                            if p < before.len() {
                                assert(before[p].item == key);
                                assert(distinct_forms(seen).contains(key));
                            } else {
                                assert(lookaheads_of(seen, form@) =~= Set::<Lookahead>::empty()) by {
                                    assert forall|k: int| 0 <= k < seen.len() implies (
                                    #[trigger] seen[k]).to_lr0() != form@ by {
                                        assert(distinct_forms(seen).contains(seen[k].to_lr0()));
                                    }
                                }
                            }
                        }
                    }
                }
            }
        }
        n += 1;
    }
    assert(all.take(n as int) =~= all);
    groups
}

/// One more item adds its lookahead to the lookaheads of its own form, and
/// nothing to those of another.
proof fn lemma_lookaheads_push(items: Seq<ItemView>, item: ItemView, form: LR0ItemView)
    ensures
        lookaheads_of(items.push(item), form) == if item.to_lr0() == form {
            lookaheads_of(items, form).insert(item.lookahead)
        } else {
            lookaheads_of(items, form)
        },
{
    let now = items.push(item);
    let grown = if item.to_lr0() == form {
        lookaheads_of(items, form).insert(item.lookahead)
    } else {
        lookaheads_of(items, form)
    };
    assert forall|l: Lookahead| lookaheads_of(now, form).contains(l) implies grown.contains(l) by {
        let k = choose|k: int|
            0 <= k < now.len() && (#[trigger] now[k]).to_lr0() == form && now[k].lookahead == l;
        if k < items.len() {
            assert(items[k].to_lr0() == form && items[k].lookahead == l);
        }
    }
    assert forall|l: Lookahead| grown.contains(l) implies lookaheads_of(now, form).contains(l) by {
        if lookaheads_of(items, form).contains(l) {
            let k = choose|k: int|
                0 <= k < items.len() && (#[trigger] items[k]).to_lr0() == form && items[k].lookahead
                    == l;
            assert(now[k].to_lr0() == form && now[k].lookahead == l);
        } else {
            assert(now[items.len() as int].to_lr0() == form && now[items.len() as int].lookahead
                == l);
        }
    }
    assert(lookaheads_of(now, form) =~= grown);
}

} // verus!
