//! The diagnosis as a document: headings, paragraphs, lists and pictures of
//! examples, for a later stage to lay out as text.

use vstd::prelude::*;
use crate::automaton::{Item, ItemView};
use crate::example::{Example, ExampleView};
use crate::grammar::{Production, Span, Symbol};
use crate::lookahead::Lookahead;

verus! {

/// The part that a piece of text plays; the layout picks its look.
#[derive(Clone, Copy, Debug, PartialEq, Eq, Hash, Structural)]
pub enum Style {
    /// Symbols that can be read in two ways.
    AmbigSymbols,
    /// Symbols before the cursor.
    ObservedSymbols,
    /// The symbol at the cursor.
    CursorSymbol,
    /// Symbols behind the cursor.
    UnobservedSymbols,
}

/// The styles of an example's symbols, by their place relative to the
/// cursor.
#[derive(Clone, Copy, Debug, PartialEq, Eq, Hash, Structural)]
pub struct ExampleStyles {
    pub before_cursor: Style,
    pub on_cursor: Style,
    pub after_cursor: Style,
}

impl ExampleStyles {
    /// The styles of an ambiguous input: every symbol alike.
    pub open spec fn spec_ambig() -> ExampleStyles {
        ExampleStyles {
            before_cursor: Style::AmbigSymbols,
            on_cursor: Style::AmbigSymbols,
            after_cursor: Style::AmbigSymbols,
        }
    }

    /// The styles of an input read up to the cursor.
    pub open spec fn spec_new() -> ExampleStyles {
        ExampleStyles {
            before_cursor: Style::ObservedSymbols,
            on_cursor: Style::CursorSymbol,
            after_cursor: Style::UnobservedSymbols,
        }
    }

    /// The styles of an ambiguous input: every symbol alike.
    #[verifier::when_used_as_spec(spec_ambig)]
    pub fn ambig() -> (r: ExampleStyles)
        ensures
            r == Self::spec_ambig(),
    {
        ExampleStyles {
            before_cursor: Style::AmbigSymbols,
            on_cursor: Style::AmbigSymbols,
            after_cursor: Style::AmbigSymbols,
        }
    }

    /// The styles of an input read up to the cursor.
    #[verifier::when_used_as_spec(spec_new)]
    pub fn new() -> (r: ExampleStyles)
        ensures
            r == Self::spec_new(),
    {
        ExampleStyles {
            before_cursor: Style::ObservedSymbols,
            on_cursor: Style::CursorSymbol,
            after_cursor: Style::UnobservedSymbols,
        }
    }
}

/// A node of the document.
#[derive(Debug, PartialEq, Eq)]
pub enum Content {
    /// Prose.
    Text(String),
    /// A grammar symbol, named as the grammar names it.
    Symbol(Symbol),
    /// A lookahead, shown as it is.
    Lookahead(Lookahead),
    /// An item, shown as it is.
    Item { production: Production, index: usize, lookahead: Lookahead },
    /// `item` with text right before and right behind it.
    Adjacent { prefix: String, item: Box<Content>, suffix: String },
    /// `item` with a punctuation mark right behind it.
    Punctuated { item: Box<Content>, mark: String },
    /// `item` in a style.
    Styled { style: Style, item: Box<Content> },
    /// A paragraph: the items flow one after another and wrap at the margin.
    Wrap(Vec<Content>),
    /// The items one below another.
    Lines(Vec<Content>),
    /// `item`, moved in from the margin.
    Indented(Box<Content>),
    /// The first `length` symbols of an example, in a row.
    SymbolList { example: Example, length: usize, styles: ExampleStyles },
    /// An example with its reductions drawn below its symbols.
    Picture { example: Example, styles: ExampleStyles },
}

/// What a node is, as a mathematical value.
pub enum ContentView {
    Text(Seq<char>),
    Symbol(Symbol),
    Lookahead(Lookahead),
    Item(ItemView),
    Adjacent { prefix: Seq<char>, item: Box<ContentView>, suffix: Seq<char> },
    Punctuated { item: Box<ContentView>, mark: Seq<char> },
    Styled { style: Style, item: Box<ContentView> },
    Wrap(Seq<ContentView>),
    Lines(Seq<ContentView>),
    Indented(Box<ContentView>),
    SymbolList { example: ExampleView, length: nat, styles: ExampleStyles },
    Picture { example: ExampleView, styles: ExampleStyles },
}

/// What a node is.
pub open spec fn content_view(content: Content) -> ContentView
    decreases content,
{
    match content {
        Content::Text(text) => ContentView::Text(text@),
        Content::Symbol(symbol) => ContentView::Symbol(symbol),
        Content::Lookahead(lookahead) => ContentView::Lookahead(lookahead),
        Content::Item { production, index, lookahead } => ContentView::Item(
            ItemView { production: production@, index, lookahead },
        ),
        Content::Adjacent { prefix, item, suffix } => ContentView::Adjacent {
            prefix: prefix@,
            item: Box::new(content_view(*item)),
            suffix: suffix@,
        },
        Content::Punctuated { item, mark } => ContentView::Punctuated {
            item: Box::new(content_view(*item)),
            mark: mark@,
        },
        Content::Styled { style, item } => ContentView::Styled {
            style,
            item: Box::new(content_view(*item)),
        },
        Content::Wrap(items) => ContentView::Wrap(content_views(items@)),
        Content::Lines(items) => ContentView::Lines(content_views(items@)),
        Content::Indented(item) => ContentView::Indented(Box::new(content_view(*item))),
        Content::SymbolList { example, length, styles } => ContentView::SymbolList {
            example: example@,
            length: length as nat,
            styles,
        },
        Content::Picture { example, styles } => ContentView::Picture { example: example@, styles },
    }
}

/// What the nodes of a list are.
pub open spec fn content_views(items: Seq<Content>) -> Seq<ContentView>
    decreases items,
{
    Seq::new(
        items.len(),
        |i: int|
            if 0 <= i < items.len() {
                content_view(items[i])
            } else {
                ContentView::Wrap(Seq::empty())
            },
    )
}

impl View for Content {
    type V = ContentView;

    open spec fn view(&self) -> ContentView {
        content_view(*self)
    }
}

/// `item` between back quotes.
pub open spec fn verbatim(item: ContentView) -> ContentView {
    ContentView::Adjacent { prefix: "`"@, item: Box::new(item), suffix: "`"@ }
}

/// `item` with `mark` right behind it.
pub open spec fn punctuated(item: ContentView, mark: Seq<char>) -> ContentView {
    ContentView::Punctuated { item: Box::new(item), mark }
}

/// `item` in `style`.
pub open spec fn styled(item: ContentView, style: Style) -> ContentView {
    ContentView::Styled { style, item: Box::new(item) }
}

/// A paragraph of one piece of prose.
pub open spec fn wrapped_text(text: Seq<char>) -> ContentView {
    ContentView::Wrap(seq![ContentView::Text(text)])
}

/// A nonterminal named between back quotes, with `mark` behind it.
pub open spec fn quoted_symbol(symbol: Symbol, mark: Seq<char>) -> ContentView {
    punctuated(verbatim(ContentView::Symbol(symbol)), mark)
}

/// A list of nodes under construction: nodes are added at its end, and the
/// last one can be taken up again and decorated.
pub struct Builder {
    pub items: Vec<Content>,
}

impl View for Builder {
    type V = Seq<ContentView>;

    open spec fn view(&self) -> Seq<ContentView> {
        content_views(self.items@)
    }
}

impl Builder {
    /// The empty list.
    pub fn new() -> (r: Builder)
        ensures
            r@ == Seq::<ContentView>::empty(),
    {
        let r = Builder { items: Vec::new() };
        assert(r@ =~= Seq::<ContentView>::empty());
        r
    }

    /// Adds `item` at the end.
    pub fn push(self, item: Content) -> (r: Builder)
        ensures
            r@ == self@.push(item@),
    {
        let mut items = self.items;
        items.push(item);
        let r = Builder { items };
        assert(r@ =~= self@.push(item@));
        r
    }

    /// Takes the last node off; `None` where there is none.
    fn pop(self) -> (r: (Builder, Option<Content>))
        ensures
            self@.len() == 0 ==> r.1 is None && r.0@ == self@,
            self@.len() > 0 ==> r.1 is Some && r.1->0@ == self@.last() && r.0@
                == self@.drop_last(),
    {
        let mut items = self.items;
        let last = items.pop();
        let r = Builder { items };
        assert(self@.len() > 0 ==> r@ =~= self@.drop_last());
        (r, last)
    }

    /// Adds prose at the end.
    pub fn text(self, text: &str) -> (r: Builder)
        ensures
            r@ == self@.push(ContentView::Text(text@)),
    {
        self.push(Content::Text(text.to_owned()))
    }

    /// Adds a paragraph of one piece of prose at the end.
    pub fn wrap_text(self, text: &str) -> (r: Builder)
        ensures
            r@ == self@.push(wrapped_text(text@)),
    {
        let paragraph = Builder::new().text(text).wrap();
        self.push(paragraph)
    }

    /// Puts text right before and right behind the last node.
    pub fn adjacent_text(self, prefix: &str, suffix: &str) -> (r: Builder)
        requires
            self@.len() > 0,
        ensures
            r@ == self@.drop_last().push(
                ContentView::Adjacent {
                    prefix: prefix@,
                    item: Box::new(self@.last()),
                    suffix: suffix@,
                },
            ),
    {
        let (rest, last) = self.pop();
        match last {
            Some(item) => rest.push(
                Content::Adjacent {
                    prefix: prefix.to_owned(),
                    item: Box::new(item),
                    suffix: suffix.to_owned(),
                },
            ),
            None => rest,
        }
    }

    /// Puts the last node between back quotes.
    pub fn verbatimed(self) -> (r: Builder)
        requires
            self@.len() > 0,
        ensures
            r@ == self@.drop_last().push(verbatim(self@.last())),
    {
        self.adjacent_text("`", "`")
    }

    /// Puts a punctuation mark right behind the last node.
    pub fn punctuated(self, mark: &str) -> (r: Builder)
        requires
            self@.len() > 0,
        ensures
            r@ == self@.drop_last().push(punctuated(self@.last(), mark@)),
    {
        let (rest, last) = self.pop();
        match last {
            Some(item) => rest.push(
                Content::Punctuated { item: Box::new(item), mark: mark.to_owned() },
            ),
            None => rest,
        }
    }

    /// Puts the last node in `style`.
    pub fn styled(self, style: Style) -> (r: Builder)
        requires
            self@.len() > 0,
        ensures
            r@ == self@.drop_last().push(styled(self@.last(), style)),
    {
        let (rest, last) = self.pop();
        match last {
            Some(item) => rest.push(Content::Styled { style, item: Box::new(item) }),
            None => rest,
        }
    }

    /// The nodes as one paragraph.
    pub fn wrap(self) -> (r: Content)
        ensures
            r@ == ContentView::Wrap(self@),
    {
        Content::Wrap(self.items)
    }

    /// The nodes one below another.
    pub fn lines(self) -> (r: Content)
        ensures
            r@ == ContentView::Lines(self@),
    {
        Content::Lines(self.items)
    }

    /// The nodes one below another, moved in from the margin.
    pub fn indented(self) -> (r: Content)
        ensures
            r@ == ContentView::Indented(Box::new(ContentView::Lines(self@))),
    {
        let block = self.lines();
        Content::Indented(Box::new(block))
    }

    /// The nodes.
    pub fn end(self) -> (r: Vec<Content>)
        ensures
            content_views(r@) == self@,
    {
        self.items
    }
}

/// A diagnosis: where in the grammar it points, its heading, and the
/// sections of its body.
#[derive(Debug, PartialEq, Eq)]
pub struct Message {
    pub span: Span,
    pub heading: Vec<Content>,
    pub body: Vec<Content>,
}

/// What a diagnosis is, as a mathematical value.
pub struct MessageView {
    pub span: Span,
    pub heading: Seq<ContentView>,
    pub body: Seq<ContentView>,
}

impl View for Message {
    type V = MessageView;

    open spec fn view(&self) -> MessageView {
        MessageView {
            span: self.span,
            heading: content_views(self.heading@),
            body: content_views(self.body@),
        }
    }
}

/// The views of a list of diagnoses.
pub open spec fn message_views(messages: Seq<Message>) -> Seq<MessageView> {
    messages.map_values(|m: Message| m@)
}

impl Message {
    /// The diagnosis with this heading and these sections.
    pub fn new(span: Span, heading: Builder, body: Builder) -> (r: Message)
        ensures
            r@ == (MessageView { span, heading: heading@, body: body@ }),
    {
        Message { span, heading: heading.end(), body: body.end() }
    }
}

} // verus!
