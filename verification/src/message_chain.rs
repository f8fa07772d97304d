//! Message bodies: a chain of elements, and the text a chain is shown as.

use vstd::prelude::*;

verus! {

/// A run of plain text inside a message.
#[derive(Clone, Debug, PartialEq, Eq)]
pub struct Text {
    pub content: String,
}

/// One element of a message body.
#[derive(Clone, Debug, PartialEq, Eq)]
pub enum MessageElement {
    /// Plain text.
    Text(Text),
    /// An element of another kind (an image, a face, a mention), kept as
    /// the text it is shown as.
    Other(String),
}

/// What an element is as a value: its kind, and its characters.
pub enum ElementView {
    Text(Seq<char>),
    Other(Seq<char>),
}

/// The body of a message: its elements in order.
#[derive(Clone, Debug, PartialEq, Eq)]
pub struct MessageChain {
    pub elements: Vec<MessageElement>,
}

/// The text that a sequence of elements is shown as: the text of each
/// element, in order, with nothing in between.
pub open spec fn render(elements: Seq<ElementView>) -> Seq<char>
    decreases elements.len(),
{
    if elements.len() == 0 {
        Seq::empty()
    } else {
        render(elements.drop_last()) + elements.last().shown()
    }
}

/// The chain that a plain string turns into: one text element holding it.
pub open spec fn text_chain(s: Seq<char>) -> Seq<ElementView> {
    seq![ElementView::Text(s)]
}

impl ElementView {
    /// The characters this element adds to the text of its chain.
    pub open spec fn shown(self) -> Seq<char> {
        match self {
            ElementView::Text(s) => s,
            ElementView::Other(s) => s,
        }
    }
}

impl View for Text {
    type V = Seq<char>;

    open spec fn view(&self) -> Seq<char> {
        self.content@
    }
}

impl View for MessageElement {
    type V = ElementView;

    open spec fn view(&self) -> ElementView {
        match self {
            MessageElement::Text(t) => ElementView::Text(t@),
            MessageElement::Other(s) => ElementView::Other(s@),
        }
    }
}

impl View for MessageChain {
    type V = Seq<ElementView>;

    open spec fn view(&self) -> Seq<ElementView> {
        Seq::new(self.elements@.len(), |i: int| self.elements@[i]@)
    }
}

impl Text {
    pub fn new(content: String) -> (text: Text)
        ensures
            text.content == content,
            text@ == content@,
    {
        Text { content }
    }
}

impl MessageElement {
    /// The text this element is shown as.
    pub fn as_str(&self) -> (s: &str)
        ensures
            s@ == self@.shown(),
    {
        match self {
            MessageElement::Text(t) => t.content.as_str(),
            MessageElement::Other(s) => s.as_str(),
        }
    }
}

impl MessageChain {
    /// A chain of one text element.
    pub fn new(text: Text) -> (chain: MessageChain)
        ensures
            chain@ == text_chain(text@),
    {
        let mut elements: Vec<MessageElement> = Vec::new();
        elements.push(MessageElement::Text(text));
        let chain = MessageChain { elements };
        assert(chain@ =~= text_chain(text@));
        chain
    }

    /// A chain without elements.
    pub fn empty() -> (chain: MessageChain)
        ensures
            chain@ == Seq::<ElementView>::empty(),
    {
        let chain = MessageChain { elements: Vec::new() };
        assert(chain@ =~= Seq::<ElementView>::empty());
        chain
    }

    /// Adds an element at the end.
    pub fn push(&mut self, element: MessageElement)
        ensures
            final(self)@ == old(self)@.push(element@),
    {
        self.elements.push(element);
        assert(self@ =~= old(self)@.push(element@));
    }

    /// The text the chain is shown as.
    pub fn to_string(&self) -> (s: String)
        ensures
            s@ == render(self@),
    {
        let mut s = String::new();
        let mut i: usize = 0;
        assert(self@.take(0) =~= Seq::<ElementView>::empty());
        while i < self.elements.len()
            invariant
                i <= self.elements.len(),
                s@ == render(self@.take(i as int)),
            decreases self.elements.len() - i,
        {
            s.append(self.elements[i].as_str());
            proof {
                law_render_push(self@.take(i as int), self@[i as int]);
                assert(self@.take(i + 1) =~= self@.take(i as int).push(self@[i as int]));
            }
            i += 1;
        }
        assert(self@.take(i as int) =~= self@);
        s
    }
}

/// A string turned into a chain and shown again is the string itself.
pub proof fn law_text_round_trip(s: Seq<char>)
    ensures
        render(text_chain(s)) == s,
{
    let chain = text_chain(s);
    assert(chain.drop_last() =~= Seq::<ElementView>::empty());
    assert(render(chain.drop_last()) =~= Seq::<char>::empty());
    assert(render(chain) =~= s);
}

/// Showing is additive: the text of a chain with one more element is the
/// text of the chain followed by the text of that element.
pub proof fn law_render_push(elements: Seq<ElementView>, element: ElementView)
    ensures
        render(elements.push(element)) == render(elements) + element.shown(),
{
    assert(elements.push(element).drop_last() =~= elements);
}

} // verus!
