//! The grammar as the diagnosis reads it: symbols, productions and the
//! lookup of a nonterminal's productions.

use vstd::prelude::*;

verus! {

/// A terminal of the grammar, by its number.
#[derive(Clone, Copy, Debug, PartialEq, Eq, Hash, Structural)]
pub struct TerminalId(pub usize);

/// A nonterminal of the grammar, by its number.
#[derive(Clone, Copy, Debug, PartialEq, Eq, Hash, Structural)]
pub struct NonterminalId(pub usize);

/// A grammar symbol.
#[derive(Clone, Copy, Debug, PartialEq, Eq, Hash, Structural)]
pub enum Symbol {
    Terminal(TerminalId),
    Nonterminal(NonterminalId),
}

/// A range of the grammar's source text, from `lo` up to `hi`.
#[derive(Clone, Copy, Debug, PartialEq, Eq, Hash, Structural)]
pub struct Span {
    pub lo: usize,
    pub hi: usize,
}

/// One alternative of a nonterminal.
#[derive(Debug, PartialEq, Eq)]
pub struct Production {
    pub nonterminal: NonterminalId,
    pub symbols: Vec<Symbol>,
    pub span: Span,
}

/// What a production is, as a mathematical value.
pub struct ProductionView {
    pub nonterminal: NonterminalId,
    pub symbols: Seq<Symbol>,
    pub span: Span,
}

impl View for Production {
    type V = ProductionView;

    open spec fn view(&self) -> ProductionView {
        ProductionView { nonterminal: self.nonterminal, symbols: self.symbols@, span: self.span }
    }
}

impl Clone for Production {
    fn clone(&self) -> (r: Self)
        ensures
            r@ == self@,
    {
        let symbols = self.symbols.clone();
        assert(symbols@ =~= self.symbols@);
        Production { nonterminal: self.nonterminal, symbols, span: self.span }
    }
}

impl Production {
    /// Whether two productions hold the same head, symbols and span.
    pub fn same_as(&self, other: &Production) -> (r: bool)
        ensures
            r == (self@ == other@),
    {
        if !(self.nonterminal == other.nonterminal && self.span == other.span
            && self.symbols.len() == other.symbols.len()) {
            return false;
        }
        let mut i: usize = 0;
        while i < self.symbols.len()
            invariant
                i <= self.symbols.len(),
                self.symbols.len() == other.symbols.len(),
                forall|k: int| 0 <= k < i ==> self.symbols@[k] == other.symbols@[k],
            decreases self.symbols.len() - i,
        {
            if self.symbols[i] != other.symbols[i] {
                return false;
            }
            i += 1;
        }
        assert(self.symbols@ =~= other.symbols@);
        true
    }
}

/// The grammar: its productions, in the order of their definition.
#[derive(Debug, PartialEq, Eq)]
pub struct Grammar {
    pub productions: Vec<Production>,
}

impl View for Grammar {
    type V = Seq<ProductionView>;

    open spec fn view(&self) -> Seq<ProductionView> {
        self.productions@.map_values(|p: Production| p@)
    }
}

/// The productions of `grammar` whose head is `nonterminal`, in the
/// grammar's order.
pub open spec fn productions_of(grammar: Seq<ProductionView>, nonterminal: NonterminalId) -> Seq<
    ProductionView,
> {
    grammar.filter(|p: ProductionView| p.nonterminal == nonterminal)
}

/// The views of borrowed productions.
pub open spec fn production_views(productions: Seq<&Production>) -> Seq<ProductionView> {
    productions.map_values(|p: &Production| p@)
}

impl Grammar {
    /// The productions of `nonterminal`, in the grammar's order; none for a
    /// nonterminal that the grammar does not define.
    pub fn productions_for(&self, nonterminal: NonterminalId) -> (r: Vec<&Production>)
        ensures
            production_views(r@) == productions_of(self@, nonterminal),
    {
        let mut found: Vec<&Production> = Vec::new();
        let mut i: usize = 0;
        assert(self@.take(0) =~= Seq::<ProductionView>::empty());
        assert(production_views(found@) =~= Seq::<ProductionView>::empty());
        while i < self.productions.len()
            invariant
                i <= self.productions.len(),
                production_views(found@) == productions_of(self@.take(i as int), nonterminal),
            decreases self.productions.len() - i,
        {
            let production = &self.productions[i];
            let ghost before = found@;
            proof {
                let pred = |p: ProductionView| p.nonterminal == nonterminal;
                assert(self@.take(i as int + 1) =~= self@.take(i as int).push(production@));
                self@.take(i as int).lemma_filter_push(production@, pred);
            }
            if production.nonterminal == nonterminal {
                found.push(production);
                assert(production_views(found@) =~= production_views(before).push(production@));
            }
            i += 1;
        }
        assert(self@.take(i as int) =~= self@);
        found
    }
}

} // verus!
