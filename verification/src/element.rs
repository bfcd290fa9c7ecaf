//! The UI tree that the host draws: elements with their style and event
//! attributes, applied in order, and their children.

use vstd::prelude::*;
use crate::events::UiEvent;
use crate::state::text_opt;

verus! {

#[derive(Clone, Copy, PartialEq, Eq, Structural, Debug)]
pub enum ElementType {
    Div,
    P,
    Input,
    Button,
    Select,
    SelectOption,
}

#[derive(Clone, Copy, PartialEq, Eq, Structural, Debug)]
pub enum FlexDirection {
    Row,
    Column,
}

/// One builder step on an element: a style, or an event it reports.
#[derive(Clone, Copy, Debug)]
pub enum Attr {
    Flex,
    FlexDirection(FlexDirection),
    JustifyCenter,
    Relative,
    Absolute,
    WithoutDefaultStyles,
    WidthFull,
    Size(u32),
    Height(u32),
    Left(u32),
    Right(u32),
    Top(u32),
    Radius(u32),
    Padding(u32),
    PaddingTop(u32),
    PaddingRight(u32),
    PaddingBottom(u32),
    PaddingLeft(u32),
    Margin(u32),
    MarginTop(u32),
    MarginRight(u32),
    MarginBottom(u32),
    Bg(&'static str),
    TextColor(&'static str),
    /// The element reports this kind of event under this name.
    On(UiEvent, &'static str),
}

/// An element of the UI tree.
#[derive(Debug)]
pub struct Element {
    pub kind: ElementType,
    pub text: Option<String>,
    pub attrs: Vec<Attr>,
    pub children: Vec<Element>,
}

#[verifier::ext_equal]
pub struct ElementView {
    pub kind: ElementType,
    pub text: Option<Seq<char>>,
    pub attrs: Seq<Attr>,
    pub children: Seq<ElementView>,
}

pub open spec fn element_view(e: Element) -> ElementView
    decreases e,
{
    ElementView {
        kind: e.kind,
        text: text_opt(e.text),
        attrs: e.attrs@,
        children: children_view(e.children@),
    }
}

pub open spec fn children_view(cs: Seq<Element>) -> Seq<ElementView>
    decreases cs,
{
    if cs.len() == 0 {
        Seq::empty()
    } else {
        children_view(cs.drop_last()).push(element_view(cs.last()))
    }
}

impl View for Element {
    type V = ElementView;

    open spec fn view(&self) -> ElementView {
        element_view(*self)
    }
}

/// The view of a child list, child by child.
pub proof fn lemma_children_view(cs: Seq<Element>)
    ensures
        children_view(cs) =~= cs.map_values(|c: Element| c@),
    decreases cs.len(),
{
    if cs.len() > 0 {
        lemma_children_view(cs.drop_last());
        assert(cs.drop_last().map_values(|c: Element| c@).push(cs.last()@) =~= cs.map_values(
            |c: Element| c@,
        ));
    }
}

/// An element with the given content, in view form.
pub open spec fn node(
    kind: ElementType,
    text: Option<Seq<char>>,
    attrs: Seq<Attr>,
    children: Seq<ElementView>,
) -> ElementView {
    ElementView { kind, text, attrs, children }
}

/// A leaf element, in view form.
pub open spec fn leaf(kind: ElementType, text: Option<Seq<char>>, attrs: Seq<Attr>) -> ElementView {
    node(kind, text, attrs, Seq::empty())
}

impl Element {
    /// An element with the given content.
    pub fn new(kind: ElementType, text: Option<String>, attrs: Vec<Attr>, children: Vec<Element>) -> (r: Element)
        ensures
            r@ == node(kind, text_opt(text), attrs@, children@.map_values(|c: Element| c@)),
    {
        proof {
            lemma_children_view(children@);
        }
        Element { kind, text, attrs, children }
    }

    /// A leaf element.
    pub fn leaf(kind: ElementType, text: Option<String>, attrs: Vec<Attr>) -> (r: Element)
        ensures
            r@ == leaf(kind, text_opt(text), attrs@),
    {
        let r = Element::new(kind, text, attrs, Vec::new());
        assert(r@.children =~= Seq::<ElementView>::empty());
        r
    }

    /// Appends `child` to the children.
    pub fn child(self, child: Element) -> (r: Element)
        ensures
            r@ == node(self@.kind, self@.text, self@.attrs, self@.children.push(child@)),
    {
        let Element { kind, text, attrs, mut children } = self;
        let ghost before = children@;
        children.push(child);
        proof {
            assert(children@.drop_last() =~= before);
        }
        Element { kind, text, attrs, children }
    }
}

} // verus!
