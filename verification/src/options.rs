//! The `#[options(..)]` attribute: a list of named settings, and the lookup
//! of one setting in it.

use vstd::prelude::*;
use crate::attr::{
    attr_with_name, first_named, lemma_first_named_is, lemma_first_named_none,
    str_value_named, str_value_of_meta_item, values_of,
};
use crate::error::{answer, ConfigError, ConfigErrorView};
use crate::meta::{Attribute, MetaItem, MetaItemView, NestedMetaItem, NestedMetaItemView};
use crate::text::same_text;

verus! {

impl NestedMetaItemView {
    /// The meta item, where the entry is one and no literal.
    pub open spec fn as_meta_item(self) -> Option<MetaItemView> {
        match self {
            NestedMetaItemView::MetaItem(item) => Some(item),
            NestedMetaItemView::Literal(_) => None,
        }
    }
}

/// The settings that the list `item` holds. An item that is no list, and a
/// list with a literal among its entries, is a malformed group.
pub open spec fn settings_of(item: MetaItemView) -> Result<Seq<MetaItemView>, ConfigErrorView> {
    match item {
        MetaItemView::List(_, entries) => if forall|i: int|
            0 <= i < entries.len() ==> (#[trigger] entries[i]).as_meta_item() is Some {
            Ok(Seq::new(entries.len(), |i: int| entries[i].as_meta_item().unwrap()))
        } else {
            Err(ConfigErrorView::MalformedOptionsGroup)
        },
        _ => Err(ConfigErrorView::MalformedOptionsGroup),
    }
}

/// The settings of the first of `attrs` that is named `options`, if there is
/// one.
pub open spec fn options_of(attrs: Seq<MetaItemView>) -> Result<
    Option<Seq<MetaItemView>>,
    ConfigErrorView,
> {
    match first_named(attrs, "options"@) {
        Some(i) => match settings_of(attrs[i]) {
            Ok(settings) => Ok(Some(settings)),
            Err(e) => Err(e),
        },
        None => Ok(None),
    }
}

/// The string value of the first of `options` named `name`, which must be
/// there.
pub open spec fn required_option(options: Seq<MetaItemView>, name: Seq<char>) -> Result<
    Seq<char>,
    ConfigErrorView,
> {
    match str_value_named(options, name) {
        Ok(Some(value)) => Ok(value),
        Ok(None) => Err(ConfigErrorView::MissingRequiredOption { name }),
        Err(e) => Err(e),
    }
}

/// The settings of the attribute `#[options(..)]`, each as it stands in the
/// list. `None` where the declaration has no such attribute.
pub fn get_options_from_input(attrs: &[Attribute]) -> (options: Result<
    Option<Vec<MetaItem>>,
    ConfigError,
>)
    ensures
        answer(options) == options_of(values_of(attrs.deep_view())),
{
    match attr_with_name(attrs, "options") {
        Some(attr) => match &attr.value {
            MetaItem::List(_, items) => {
                proof {
                    attr.value.lemma_view_list();
                }
                let ghost entries = attr@.value->List_1;
                let ghost place = first_named(values_of(attrs.deep_view()), "options"@).unwrap();
                let mut settings: Vec<MetaItem> = Vec::new();
                let mut i: usize = 0;
                while i < items.len()
                    invariant
                        i <= items@.len(),
                        settings@.len() == i,
                        first_named(values_of(attrs.deep_view()), "options"@) == Some(place),
                        values_of(attrs.deep_view())[place] == attr@.value,
                        attr@.value is List,
                        entries == attr@.value->List_1,
                        entries.len() == items@.len(),
                        forall|k: int|
                            0 <= k < items@.len() ==> entries[k] == (#[trigger] items@[k])@,
                        forall|k: int|
                            0 <= k < i ==> (#[trigger] entries[k]).as_meta_item() == Some(
                                settings@[k]@,
                            ),
                    decreases items@.len() - i,
                {
                    match &items[i] {
                        NestedMetaItem::MetaItem(item) => {
                            settings.push(item.clone());
                        },
                        NestedMetaItem::Literal(_) => {
                            assert(entries[i as int].as_meta_item() is None);
                            return Err(ConfigError::MalformedOptionsGroup);
                        },
                    }
                    i += 1;
                }
                proof {
                    assert(settings.deep_view() =~= Seq::new(
                        entries.len(),
                        |i: int| entries[i].as_meta_item().unwrap(),
                    ));
                }
                Ok(Some(settings))
            },
            _ => Err(ConfigError::MalformedOptionsGroup),
        },
        None => Ok(None),
    }
}

/// The first of `items` named `name`.
fn item_with_name<'a>(items: &'a [MetaItem], name: &str) -> (found: Option<&'a MetaItem>)
    ensures
        match first_named(items.deep_view(), name@) {
            Some(i) => found == Some(&items@[i]),
            None => found is None,
        },
{
    let mut i: usize = 0;
    while i < items.len()
        invariant
            i <= items@.len(),
            forall|j: int| 0 <= j < i ==> (#[trigger] items.deep_view()[j]).name() != name@,
        decreases items@.len() - i,
    {
        if same_text(items[i].name(), name) {
            proof {
                lemma_first_named_is(items.deep_view(), name@, i as int);
            }
            return Some(&items[i]);
        }
        i += 1;
    }
    proof {
        lemma_first_named_none(items.deep_view(), name@);
    }
    None
}

/// The string value of the first of `options` named `option_name`: `users`
/// where `table_name = "users"` is the first. `None` where no option has the
/// name.
pub fn get_optional_option<'a>(options: &'a [MetaItem], option_name: &str) -> (value: Result<
    Option<&'a str>,
    ConfigError,
>)
    ensures
        answer(value) == str_value_named(options.deep_view(), option_name@),
{
    match item_with_name(options, option_name) {
        Some(item) => match str_value_of_meta_item(item, option_name) {
            Ok(s) => Ok(Some(s)),
            Err(e) => Err(e),
        },
        None => Ok(None),
    }
}

/// The string value of the first of `options` named `option_name`, which is
/// required: an error where no option has the name.
pub fn get_option<'a>(options: &'a [MetaItem], option_name: &str) -> (value: Result<
    &'a str,
    ConfigError,
>)
    ensures
        answer(value) == required_option(options.deep_view(), option_name@),
{
    match get_optional_option(options, option_name) {
        Ok(Some(s)) => Ok(s),
        Ok(None) => Err(ConfigError::MissingRequiredOption { name: option_name.to_owned() }),
        Err(e) => Err(e),
    }
}

} // verus!
