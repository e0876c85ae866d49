//! The token an LR(1) item waits for, and sets of such tokens.

use vstd::prelude::*;
use vstd::seq_lib::seq_to_set_is_finite;
use crate::grammar::TerminalId;

verus! {

/// What may follow a completed item: a terminal, or the end of the input.
#[derive(Clone, Copy, Debug, PartialEq, Eq, Hash, Structural)]
pub enum Lookahead {
    EOF,
    Terminal(TerminalId),
}

/// A set of lookaheads, built by repeated insertion. Its members are kept
/// in the order in which they first came, each once.
#[derive(Debug, PartialEq, Eq)]
pub struct LookaheadSet {
    members: Vec<Lookahead>,
}

impl View for LookaheadSet {
    type V = Set<Lookahead>;

    closed spec fn view(&self) -> Set<Lookahead> {
        self.members@.to_set()
    }
}

impl LookaheadSet {
    #[verifier::type_invariant]
    spec fn each_member_once(self) -> bool {
        self.members@.no_duplicates()
    }

    /// The members in the order in which they first came.
    pub closed spec fn in_order(&self) -> Seq<Lookahead> {
        self.members@
    }

    /// The empty set.
    pub fn new() -> (r: Self)
        ensures
            r@ == Set::<Lookahead>::empty(),
            r.in_order() == Seq::<Lookahead>::empty(),
    {
        let r = LookaheadSet { members: Vec::new() };
        assert(r.members@.to_set() =~= Set::<Lookahead>::empty());
        r
    }

    /// Whether `lookahead` is a member.
    pub fn contains(&self, lookahead: Lookahead) -> (r: bool)
        ensures
            r == self@.contains(lookahead),
    {
        let mut i: usize = 0;
        while i < self.members.len()
            invariant
                i <= self.members.len(),
                forall|k: int| 0 <= k < i ==> self.members@[k] != lookahead,
            decreases self.members.len() - i,
        {
            if self.members[i] == lookahead {
                return true;
            }
            i += 1;
        }
        false
    }

    /// Adds `lookahead`; says whether the set grew.
    pub fn insert(&mut self, lookahead: Lookahead) -> (grew: bool)
        ensures
            final(self)@ == old(self)@.insert(lookahead),
            grew == !old(self)@.contains(lookahead),
            final(self).in_order() == if grew {
                old(self).in_order().push(lookahead)
            } else {
                old(self).in_order()
            },
    {
        proof {
            use_type_invariant(&*self);
        }
        if self.contains(lookahead) {
            assert(self@.insert(lookahead) =~= self@);
            false
        } else {
            let ghost before = self.members@;
            let mut members: Vec<Lookahead> = Vec::new();
            std::mem::swap(&mut members, &mut self.members);
            members.push(lookahead);
            self.members = members;
            assert(self.members@.to_set() =~= before.to_set().insert(lookahead)) by {
                assert forall|l: Lookahead| #[trigger]
                    self.members@.to_set().contains(l) implies before.to_set().insert(
                    lookahead,
                ).contains(l) by {
                    let k = choose|k: int| 0 <= k < self.members@.len() && self.members@[k] == l;
                    if k < before.len() {
                        assert(before[k] == l);
                    }
                }
                assert forall|l: Lookahead| #[trigger]
                    before.to_set().insert(lookahead).contains(l) implies self.members@.to_set().contains(
                    l,
                ) by {
                    if l == lookahead {
                        assert(self.members@[before.len() as int] == l);
                    } else {
                        let k = choose|k: int| 0 <= k < before.len() && before[k] == l;
                        assert(self.members@[k] == l);
                    }
                }
            }
            true
        }
    }

    /// The number of members.
    pub fn len(&self) -> (r: usize)
        ensures
            r == self@.len(),
            self@.finite(),
    {
        proof {
            use_type_invariant(self);
            self.members@.unique_seq_to_set();
            seq_to_set_is_finite(self.members@);
        }
        self.members.len()
    }

    /// The members, in the order in which they first came.
    pub fn members(&self) -> (r: Vec<Lookahead>)
        ensures
            r@ == self.in_order(),
            r@.no_duplicates(),
            r@.to_set() == self@,
    {
        proof {
            use_type_invariant(self);
        }
        let r = self.members.clone();
        assert(r@ =~= self.members@);
        r
    }
}

} // verus!
