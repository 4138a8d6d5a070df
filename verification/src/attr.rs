//! Finding an attribute by its name and reading its value.
//!
//! An attribute that is not there is no error: the functions that look one up
//! answer `Ok(None)`. One that is there in another form than the caller asks
//! for is always an error.

use vstd::prelude::*;
use crate::error::{answer, ConfigError, ConfigErrorView, ExpectedForm};
use crate::meta::{
    Attribute, AttributeView, Ident, Lit, LitView, MetaItem, MetaItemView, NestedMetaItem,
    NestedMetaItemView,
};
use crate::text::same_text;

verus! {

/// The values of `attrs`, in their order.
pub open spec fn values_of(attrs: Seq<AttributeView>) -> Seq<MetaItemView> {
    Seq::new(attrs.len(), |i: int| attrs[i].value)
}

/// Whether `items[i]` is named `name` and no item before it is.
pub open spec fn is_first_named(items: Seq<MetaItemView>, name: Seq<char>, i: int) -> bool {
    &&& 0 <= i < items.len()
    &&& items[i].name() == name
    &&& forall|j: int| 0 <= j < i ==> (#[trigger] items[j]).name() != name
}

/// The place of the first of `items` that is named `name`.
pub open spec fn first_named(items: Seq<MetaItemView>, name: Seq<char>) -> Option<int> {
    if exists|i: int| is_first_named(items, name, i) {
        Some(choose|i: int| is_first_named(items, name, i))
    } else {
        None
    }
}

/// The first item with the name stands at one place only: where `items[i]`
/// is named `name` and no item before it is, `i` is that place.
pub proof fn lemma_first_named_is(items: Seq<MetaItemView>, name: Seq<char>, i: int)
    requires
        is_first_named(items, name, i),
    ensures
        first_named(items, name) == Some(i),
{
    let c = choose|c: int| is_first_named(items, name, c);
    if c < i {
        assert(items[c].name() != name);
    }
    if i < c {
        assert(items[i].name() != name);
    }
}

/// Where no item is named `name`, there is no first one.
pub proof fn lemma_first_named_none(items: Seq<MetaItemView>, name: Seq<char>)
    requires
        forall|j: int| 0 <= j < items.len() ==> (#[trigger] items[j]).name() != name,
    ensures
        first_named(items, name) is None,
{
}

/// The error for a `name` that is not written in the form `expected`.
pub open spec fn malformed(name: Seq<char>, expected: ExpectedForm) -> ConfigErrorView {
    ConfigErrorView::MalformedAnnotationShape { name, expected }
}

impl NestedMetaItemView {
    /// The word, where the entry is a bare word.
    pub open spec fn as_word(self) -> Option<Seq<char>> {
        match self {
            NestedMetaItemView::MetaItem(MetaItemView::Word(word)) => Some(word),
            _ => None,
        }
    }
}

/// The string that `item` gives its name: `bar` for `foo = "bar"`. Any other
/// item is malformed; `name` is the name to report it under.
pub open spec fn str_value_of(item: MetaItemView, name: Seq<char>) -> Result<
    Seq<char>,
    ConfigErrorView,
> {
    match item {
        MetaItemView::NameValue(_, LitView::Str(value, _)) => Ok(value),
        _ => Err(malformed(name, ExpectedForm::NameValue)),
    }
}

/// The words in the list of `item`: `[A, B]` for `foo(A, B)`. An item that
/// is no list, and a list with an entry that is no bare word, is malformed;
/// `name` is the name to report it under.
pub open spec fn word_list_of(item: MetaItemView, name: Seq<char>) -> Result<
    Seq<Seq<char>>,
    ConfigErrorView,
> {
    match item {
        MetaItemView::List(_, entries) => if forall|i: int|
            0 <= i < entries.len() ==> (#[trigger] entries[i]).as_word() is Some {
            Ok(Seq::new(entries.len(), |i: int| entries[i].as_word().unwrap()))
        } else {
            Err(malformed(name, ExpectedForm::List))
        },
        _ => Err(malformed(name, ExpectedForm::List)),
    }
}

/// The one word in the list of `item`: `A` for `foo(A)`. A list of bare
/// words that holds none, or more than one, is an error of its own.
pub open spec fn single_word_of(item: MetaItemView, name: Seq<char>) -> Result<
    Seq<char>,
    ConfigErrorView,
> {
    match word_list_of(item, name) {
        Ok(words) => if words.len() == 1 {
            Ok(words[0])
        } else {
            Err(ConfigErrorView::AmbiguousOrMissingIdentifier { name })
        },
        Err(e) => Err(e),
    }
}

/// The string value of the first of `items` named `name`, if there is one.
pub open spec fn str_value_named(items: Seq<MetaItemView>, name: Seq<char>) -> Result<
    Option<Seq<char>>,
    ConfigErrorView,
> {
    match first_named(items, name) {
        Some(i) => match str_value_of(items[i], name) {
            Ok(value) => Ok(Some(value)),
            Err(e) => Err(e),
        },
        None => Ok(None),
    }
}

/// The word list of the first of `items` named `name`, if there is one.
pub open spec fn word_list_named(items: Seq<MetaItemView>, name: Seq<char>) -> Result<
    Option<Seq<Seq<char>>>,
    ConfigErrorView,
> {
    match first_named(items, name) {
        Some(i) => match word_list_of(items[i], name) {
            Ok(words) => Ok(Some(words)),
            Err(e) => Err(e),
        },
        None => Ok(None),
    }
}

/// The single word of the first of `items` named `name`, if there is one.
pub open spec fn single_word_named(items: Seq<MetaItemView>, name: Seq<char>) -> Result<
    Option<Seq<char>>,
    ConfigErrorView,
> {
    match first_named(items, name) {
        Some(i) => match single_word_of(items[i], name) {
            Ok(word) => Ok(Some(word)),
            Err(e) => Err(e),
        },
        None => Ok(None),
    }
}

/// The first attribute named `name`.
pub fn attr_with_name<'a>(attrs: &'a [Attribute], name: &str) -> (found: Option<&'a Attribute>)
    ensures
        match first_named(values_of(attrs.deep_view()), name@) {
            Some(i) => found == Some(&attrs@[i]),
            None => found is None,
        },
{
    let mut i: usize = 0;
    while i < attrs.len()
        invariant
            i <= attrs@.len(),
            forall|j: int| 0 <= j < i ==> (#[trigger] values_of(attrs.deep_view())[j]).name() != name@,
        decreases attrs@.len() - i,
    {
        if same_text(attrs[i].name(), name) {
            proof {
                lemma_first_named_is(values_of(attrs.deep_view()), name@, i as int);
            }
            return Some(&attrs[i]);
        }
        i += 1;
    }
    proof {
        lemma_first_named_none(values_of(attrs.deep_view()), name@);
    }
    None
}

/// The string that `item` gives its name, `bar` for `foo = "bar"`.
///
/// `name` is the name under which an item in another form is reported.
pub fn str_value_of_meta_item<'a>(item: &'a MetaItem, name: &str) -> (value: Result<
    &'a str,
    ConfigError,
>)
    ensures
        answer(value) == str_value_of(item@, name@),
{
    match item {
        MetaItem::NameValue(_, Lit::Str(value, _)) => Ok(value.as_str()),
        _ => Err(
            ConfigError::MalformedAnnotationShape {
                name: name.to_owned(),
                expected: ExpectedForm::NameValue,
            },
        ),
    }
}

/// The string that `attr` gives its name, `bar` for `#[foo = "bar"]`.
///
/// `name` is the name under which an attribute in another form is reported.
pub fn str_value_of_attr<'a>(attr: &'a Attribute, name: &str) -> (value: Result<&'a str, ConfigError>)
    ensures
        answer(value) == str_value_of(attr@.value, name@),
{
    str_value_of_meta_item(&attr.value, name)
}

/// The words in the list of `attr`, `[A, B]` for `#[foo(A, B)]`.
///
/// `name` is the name under which an attribute in another form is reported.
pub fn list_value_of_attr<'a>(attr: &'a Attribute, name: &str) -> (value: Result<
    Vec<&'a Ident>,
    ConfigError,
>)
    ensures
        answer(value) == word_list_of(attr@.value, name@),
{
    match &attr.value {
        MetaItem::List(_, items) => {
            proof {
                attr.value.lemma_view_list();
            }
            let ghost entries = attr@.value->List_1;
            let mut idents: Vec<&'a Ident> = Vec::new();
            let mut i: usize = 0;
            while i < items.len()
                invariant
                    i <= items@.len(),
                    idents@.len() == i,
                    attr@.value is List,
                    entries == attr@.value->List_1,
                    entries.len() == items@.len(),
                    forall|k: int| 0 <= k < items@.len() ==> entries[k] == (#[trigger] items@[k])@,
                    forall|k: int|
                        0 <= k < i ==> (#[trigger] entries[k]).as_word() == Some(idents@[k]@),
                decreases items@.len() - i,
            {
                match &items[i] {
                    NestedMetaItem::MetaItem(MetaItem::Word(word)) => {
                        idents.push(word);
                    },
                    _ => {
                        assert(entries[i as int].as_word() is None);
                        return Err(
                            ConfigError::MalformedAnnotationShape {
                                name: name.to_owned(),
                                expected: ExpectedForm::List,
                            },
                        );
                    },
                }
                i += 1;
            }
            proof {
                assert(idents.deep_view() =~= Seq::new(
                    entries.len(),
                    |i: int| entries[i].as_word().unwrap(),
                ));
            }
            Ok(idents)
        },
        _ => Err(
            ConfigError::MalformedAnnotationShape {
                name: name.to_owned(),
                expected: ExpectedForm::List,
            },
        ),
    }
}

/// The string value of the first attribute named `name`: `bar` where
/// `#[name = "bar"]` is the first. `None` where no attribute has the name.
pub fn str_value_of_attr_with_name<'a>(attrs: &'a [Attribute], name: &str) -> (value: Result<
    Option<&'a str>,
    ConfigError,
>)
    ensures
        answer(value) == str_value_named(values_of(attrs.deep_view()), name@),
{
    match attr_with_name(attrs, name) {
        Some(attr) => match str_value_of_attr(attr, name) {
            Ok(s) => Ok(Some(s)),
            Err(e) => Err(e),
        },
        None => Ok(None),
    }
}

/// The words in the list of the first attribute named `name`: `[A, B]` where
/// `#[name(A, B)]` is the first. `None` where no attribute has the name.
pub fn list_value_of_attr_with_name<'a>(attrs: &'a [Attribute], name: &str) -> (value: Result<
    Option<Vec<&'a Ident>>,
    ConfigError,
>)
    ensures
        answer(value) == word_list_named(values_of(attrs.deep_view()), name@),
{
    match attr_with_name(attrs, name) {
        Some(attr) => match list_value_of_attr(attr, name) {
            Ok(idents) => Ok(Some(idents)),
            Err(e) => Err(e),
        },
        None => Ok(None),
    }
}

/// The one word in the list of the first attribute named `name`: `A` where
/// `#[name(A)]` is the first. `None` where no attribute has the name.
pub fn ident_value_of_attr_with_name<'a>(attrs: &'a [Attribute], name: &str) -> (value: Result<
    Option<&'a Ident>,
    ConfigError,
>)
    ensures
        answer(value) == single_word_named(values_of(attrs.deep_view()), name@),
{
    match list_value_of_attr_with_name(attrs, name) {
        Ok(Some(idents)) => {
            if idents.len() != 1 {
                Err(ConfigError::AmbiguousOrMissingIdentifier { name: name.to_owned() })
            } else {
                Ok(Some(idents[0]))
            }
        },
        Ok(None) => Ok(None),
        Err(e) => Err(e),
    }
}

} // verus!
