//! The metadata that an attribute carries: identifiers, literals, and the
//! three shapes of a meta item.
//!
//! Each type has a view, its mathematical value: strings become sequences of
//! characters and vectors become sequences. The contracts of this crate speak
//! of views, so two values that were built apart but hold the same data are
//! the same to every contract.

use vstd::prelude::*;

verus! {

/// A name as it is written in source text.
#[derive(Debug, PartialEq, Eq, Hash)]
pub struct Ident {
    pub name: String,
}

impl View for Ident {
    type V = Seq<char>;

    open spec fn view(&self) -> Seq<char> {
        self.name@
    }
}

impl DeepView for Ident {
    type V = Seq<char>;

    open spec fn deep_view(&self) -> Seq<char> {
        self@
    }
}

impl Ident {
    /// The identifier written `name`.
    pub fn new(name: &str) -> (id: Ident)
        ensures
            id@ == name@,
    {
        Ident { name: name.to_owned() }
    }

    /// The identifier's text.
    pub fn as_str(&self) -> (s: &str)
        ensures
            s@ == self@,
    {
        self.name.as_str()
    }
}

impl Clone for Ident {
    fn clone(&self) -> (copy: Ident)
        ensures
            copy@ == self@,
    {
        Ident { name: self.name.clone() }
    }
}

/// How a string literal was written.
#[derive(Debug, Clone, Copy, PartialEq, Eq, Hash)]
pub enum StrStyle {
    /// An ordinary string, `"foo"`.
    Cooked,
    /// A raw string, `r##"foo"##`, with the number of `#` signs.
    Raw(usize),
}

/// The suffix of an integer literal.
#[derive(Debug, Clone, Copy, PartialEq, Eq, Hash)]
pub enum IntTy {
    Isize,
    I8,
    I16,
    I32,
    I64,
    Usize,
    U8,
    U16,
    U32,
    U64,
    Unsuffixed,
}

/// The suffix of a literal with a fractional part or an exponent.
#[derive(Debug, Clone, Copy, PartialEq, Eq, Hash)]
pub enum FractionTy {
    Single,
    Double,
    Unsuffixed,
}

/// A literal.
#[derive(Debug, PartialEq, Eq, Hash)]
pub enum Lit {
    /// A string, `"foo"`.
    Str(String, StrStyle),
    /// A byte string, `b"foo"`.
    ByteStr(Vec<u8>, StrStyle),
    /// A byte, `b'f'`.
    Byte(u8),
    /// A character, `'a'`.
    Char(char),
    /// An integer, `1`.
    Int(u64, IntTy),
    /// A number with a fractional part or an exponent, kept as its digits.
    Fraction(String, FractionTy),
    /// `true` or `false`.
    Bool(bool),
}

/// The value of a [`Lit`].
pub enum LitView {
    Str(Seq<char>, StrStyle),
    ByteStr(Seq<u8>, StrStyle),
    Byte(u8),
    Char(char),
    Int(u64, IntTy),
    Fraction(Seq<char>, FractionTy),
    Bool(bool),
}

impl View for Lit {
    type V = LitView;

    open spec fn view(&self) -> LitView {
        match self {
            Lit::Str(s, style) => LitView::Str(s@, *style),
            Lit::ByteStr(bytes, style) => LitView::ByteStr(bytes@, *style),
            Lit::Byte(b) => LitView::Byte(*b),
            Lit::Char(c) => LitView::Char(*c),
            Lit::Int(n, ty) => LitView::Int(*n, *ty),
            Lit::Fraction(digits, ty) => LitView::Fraction(digits@, *ty),
            Lit::Bool(b) => LitView::Bool(*b),
        }
    }
}

impl Clone for Lit {
    fn clone(&self) -> (copy: Lit)
        ensures
            copy@ == self@,
    {
        match self {
            Lit::Str(s, style) => Lit::Str(s.clone(), *style),
            Lit::ByteStr(bytes, style) => Lit::ByteStr(bytes.clone(), *style),
            Lit::Byte(b) => Lit::Byte(*b),
            Lit::Char(c) => Lit::Char(*c),
            Lit::Int(n, ty) => Lit::Int(*n, *ty),
            Lit::Fraction(digits, ty) => Lit::Fraction(digits.clone(), *ty),
            Lit::Bool(b) => Lit::Bool(*b),
        }
    }
}

/// What stands in an attribute: `name`, `name(..)` or `name = literal`.
#[derive(Debug, PartialEq, Eq, Hash)]
pub enum MetaItem {
    /// A bare name, `test` in `#[test]`.
    Word(Ident),
    /// A name with a list, `derive(..)` in `#[derive(..)]`.
    List(Ident, Vec<NestedMetaItem>),
    /// A name with a literal, `feature = "foo"` in `#[feature = "foo"]`.
    NameValue(Ident, Lit),
}

/// One entry of a meta item's list.
#[derive(Debug, PartialEq, Eq, Hash)]
pub enum NestedMetaItem {
    /// A meta item, `Copy` in `#[derive(Copy)]`.
    MetaItem(MetaItem),
    /// A literal, `"name"` in `#[rename("name")]`.
    Literal(Lit),
}

/// The value of a [`MetaItem`].
pub enum MetaItemView {
    Word(Seq<char>),
    List(Seq<char>, Seq<NestedMetaItemView>),
    NameValue(Seq<char>, LitView),
}

/// The value of a [`NestedMetaItem`].
pub enum NestedMetaItemView {
    MetaItem(MetaItemView),
    Literal(LitView),
}

impl MetaItemView {
    /// The name that the item begins with.
    pub open spec fn name(self) -> Seq<char> {
        match self {
            MetaItemView::Word(name) => name,
            MetaItemView::List(name, _) => name,
            MetaItemView::NameValue(name, _) => name,
        }
    }
}

impl View for MetaItem {
    type V = MetaItemView;

    open spec fn view(&self) -> MetaItemView
        decreases self,
    {
        match self {
            MetaItem::Word(name) => MetaItemView::Word(name@),
            MetaItem::List(name, items) => MetaItemView::List(
                name@,
                Seq::new(
                    items@.len(),
                    |i: int|
                        if 0 <= i < items@.len() {
                            items@[i]@
                        } else {
                            arbitrary()
                        },
                ),
            ),
            MetaItem::NameValue(name, lit) => MetaItemView::NameValue(name@, lit@),
        }
    }
}

impl DeepView for MetaItem {
    type V = MetaItemView;

    open spec fn deep_view(&self) -> MetaItemView {
        self@
    }
}

impl View for NestedMetaItem {
    type V = NestedMetaItemView;

    open spec fn view(&self) -> NestedMetaItemView
        decreases self,
    {
        match self {
            NestedMetaItem::MetaItem(item) => NestedMetaItemView::MetaItem(item@),
            NestedMetaItem::Literal(lit) => NestedMetaItemView::Literal(lit@),
        }
    }
}

impl MetaItem {
    /// The name that the item begins with: `test` of `#[test]`, `derive` of
    /// `#[derive(..)]`, `feature` of `#[feature = "foo"]`.
    pub fn name(&self) -> (name: &str)
        ensures
            name@ == self@.name(),
    {
        match self {
            MetaItem::Word(name) => name.as_str(),
            MetaItem::List(name, _) => name.as_str(),
            MetaItem::NameValue(name, _) => name.as_str(),
        }
    }
}

impl Clone for MetaItem {
    fn clone(&self) -> (copy: MetaItem)
        ensures
            copy@ == self@,
        decreases self,
    {
        match self {
            MetaItem::Word(name) => MetaItem::Word(name.clone()),
            MetaItem::List(name, items) => {
                let mut copies: Vec<NestedMetaItem> = Vec::new();
                let mut i: usize = 0;
                while i < items.len()
                    invariant
                        *self == MetaItem::List(*name, *items),
                        i <= items@.len(),
                        copies@.len() == i,
                        forall|k: int| 0 <= k < i ==> copies@[k]@ == items@[k]@,
                    decreases items@.len() - i,
                {
                    assert(decreases_to!(*self => self->List_1));
                    copies.push(items[i].clone());
                    i += 1;
                }
                let copy = MetaItem::List(name.clone(), copies);
                assert(copy@->List_1 =~= self@->List_1);
                copy
            },
            MetaItem::NameValue(name, lit) => MetaItem::NameValue(name.clone(), lit.clone()),
        }
    }
}

impl Clone for NestedMetaItem {
    fn clone(&self) -> (copy: NestedMetaItem)
        ensures
            copy@ == self@,
        decreases self,
    {
        match self {
            NestedMetaItem::MetaItem(item) => NestedMetaItem::MetaItem(item.clone()),
            NestedMetaItem::Literal(lit) => NestedMetaItem::Literal(lit.clone()),
        }
    }
}

impl MetaItem {
    /// The value of a list holds the values of its entries, one for one.
    pub proof fn lemma_view_list(self)
        requires
            self is List,
        ensures
            self@ is List,
            self@->List_0 == self->List_0@,
            self@->List_1.len() == self->List_1@.len(),
            forall|i: int|
                0 <= i < self->List_1@.len() ==> self@->List_1[i] == (#[trigger] self->List_1@[i])@,
    {
        assert forall|i: int| 0 <= i < self->List_1@.len() implies ((
        #[trigger] self->List_1@[i])@ is Literal) == (self->List_1@[i] is Literal) by {}
    }
}

/// Whether an attribute stands before an item or inside it.
#[derive(Debug, Clone, Copy, PartialEq, Eq, Hash)]
pub enum AttrStyle {
    /// `#[...]`
    Outer,
    /// `#![...]`
    Inner,
}

/// An attribute of a declaration.
#[derive(Debug, PartialEq, Eq, Hash)]
pub struct Attribute {
    pub style: AttrStyle,
    pub value: MetaItem,
    /// Whether the attribute was written as a doc comment.
    pub is_sugared_doc: bool,
}

/// The value of an [`Attribute`].
pub struct AttributeView {
    pub style: AttrStyle,
    pub value: MetaItemView,
    pub is_sugared_doc: bool,
}

impl View for Attribute {
    type V = AttributeView;

    open spec fn view(&self) -> AttributeView {
        AttributeView {
            style: self.style,
            value: self.value@,
            is_sugared_doc: self.is_sugared_doc,
        }
    }
}

impl DeepView for Attribute {
    type V = AttributeView;

    open spec fn deep_view(&self) -> AttributeView {
        self@
    }
}

impl Attribute {
    /// The name of the attribute: that of its value.
    pub fn name(&self) -> (name: &str)
        ensures
            name@ == self@.value.name(),
    {
        self.value.name()
    }
}

impl Clone for Attribute {
    fn clone(&self) -> (copy: Attribute)
        ensures
            copy@ == self@,
    {
        Attribute {
            style: self.style,
            value: self.value.clone(),
            is_sugared_doc: self.is_sugared_doc,
        }
    }
}

} // verus!
