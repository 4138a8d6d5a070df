//! What holds of the lookups and builders together.
//!
//! The contracts say of each function what it answers. The laws here say
//! what follows for a caller: a name that is not there is never an error,
//! and an answer depends on nothing but the values that were asked about.

use vstd::prelude::*;
use crate::attr::{
    first_named, single_word_named, str_value_named, str_value_of, values_of, word_list_named,
};
use crate::builder::struct_ty_of;
use crate::error::{answer, ConfigError, ConfigErrorView};
use crate::meta::{Attribute, Ident, MetaItem, MetaItemView};
use crate::option_ty::{is_option, option_inner};
use crate::options::{options_of, required_option};
use crate::ty::{Generics, Ty};

verus! {

/// Where none of `items` is named `name`, every lookup by that name finds
/// nothing, and none of them fails.
pub proof fn lemma_absent_name_is_no_error(items: Seq<MetaItemView>, name: Seq<char>)
    requires
        forall|i: int| 0 <= i < items.len() ==> (#[trigger] items[i]).name() != name,
    ensures
        first_named(items, name) is None,
        str_value_named(items, name) == Ok::<Option<Seq<char>>, ConfigErrorView>(None),
        word_list_named(items, name) == Ok::<Option<Seq<Seq<char>>>, ConfigErrorView>(None),
        single_word_named(items, name) == Ok::<Option<Seq<char>>, ConfigErrorView>(None),
        name == "options"@ ==> options_of(items) == Ok::<
            Option<Seq<MetaItemView>>,
            ConfigErrorView,
        >(None),
{
}

/// Where none of `options` is named `name`, the option is missing if it is
/// required, and that is the only error.
pub proof fn lemma_absent_option_is_missing(options: Seq<MetaItemView>, name: Seq<char>)
    requires
        forall|i: int| 0 <= i < options.len() ==> (#[trigger] options[i]).name() != name,
    ensures
        required_option(options, name) == Err::<Seq<char>, ConfigErrorView>(
            ConfigErrorView::MissingRequiredOption { name },
        ),
{
}

/// Two searches for the same name among attributes of the same values find
/// attributes of the same value, or both find none.
pub proof fn lemma_attr_with_name_repeats(
    attrs1: &[Attribute],
    attrs2: &[Attribute],
    name1: &str,
    name2: &str,
    found1: Option<&Attribute>,
    found2: Option<&Attribute>,
)
    requires
        attrs1.deep_view() == attrs2.deep_view(),
        name1@ == name2@,
        match first_named(values_of(attrs1.deep_view()), name1@) {
            Some(i) => found1 == Some(&attrs1@[i]),
            None => found1 is None,
        },
        match first_named(values_of(attrs2.deep_view()), name2@) {
            Some(i) => found2 == Some(&attrs2@[i]),
            None => found2 is None,
        },
    ensures
        found1.deep_view() == found2.deep_view(),
{
    let values = values_of(attrs1.deep_view());
    match first_named(values, name1@) {
        Some(i) => {
            assert(0 <= i < values.len());
            assert(attrs1.deep_view()[i] == attrs1@[i]@);
            assert(attrs2.deep_view()[i] == attrs2@[i]@);
        },
        None => {},
    }
}

/// Two readings of items of the same value, reported under the same name,
/// give the same string or the same error.
pub proof fn lemma_str_value_of_meta_item_repeats(
    item1: &MetaItem,
    item2: &MetaItem,
    name1: &str,
    name2: &str,
    value1: Result<&str, ConfigError>,
    value2: Result<&str, ConfigError>,
)
    requires
        item1@ == item2@,
        name1@ == name2@,
        answer(value1) == str_value_of(item1@, name1@),
        answer(value2) == str_value_of(item2@, name2@),
    ensures
        answer(value1) == answer(value2),
{
}

/// Two lookups of a string value by the same name among attributes of the
/// same values give the same answer.
pub proof fn lemma_str_value_of_attr_with_name_repeats(
    attrs1: &[Attribute],
    attrs2: &[Attribute],
    name1: &str,
    name2: &str,
    value1: Result<Option<&str>, ConfigError>,
    value2: Result<Option<&str>, ConfigError>,
)
    requires
        attrs1.deep_view() == attrs2.deep_view(),
        name1@ == name2@,
        answer(value1) == str_value_named(values_of(attrs1.deep_view()), name1@),
        answer(value2) == str_value_named(values_of(attrs2.deep_view()), name2@),
    ensures
        answer(value1) == answer(value2),
{
}

/// Two lookups of a word list by the same name among attributes of the same
/// values give the same answer.
pub proof fn lemma_list_value_of_attr_with_name_repeats(
    attrs1: &[Attribute],
    attrs2: &[Attribute],
    name1: &str,
    name2: &str,
    value1: Result<Option<Vec<&Ident>>, ConfigError>,
    value2: Result<Option<Vec<&Ident>>, ConfigError>,
)
    requires
        attrs1.deep_view() == attrs2.deep_view(),
        name1@ == name2@,
        answer(value1) == word_list_named(values_of(attrs1.deep_view()), name1@),
        answer(value2) == word_list_named(values_of(attrs2.deep_view()), name2@),
    ensures
        answer(value1) == answer(value2),
{
}

/// Two lookups of a single word by the same name among attributes of the
/// same values give the same answer.
pub proof fn lemma_ident_value_of_attr_with_name_repeats(
    attrs1: &[Attribute],
    attrs2: &[Attribute],
    name1: &str,
    name2: &str,
    value1: Result<Option<&Ident>, ConfigError>,
    value2: Result<Option<&Ident>, ConfigError>,
)
    requires
        attrs1.deep_view() == attrs2.deep_view(),
        name1@ == name2@,
        answer(value1) == single_word_named(values_of(attrs1.deep_view()), name1@),
        answer(value2) == single_word_named(values_of(attrs2.deep_view()), name2@),
    ensures
        answer(value1) == answer(value2),
{
}

/// Two types of the same value are both options or both none, and what they
/// wrap has the same value.
pub proof fn lemma_option_ty_repeats(
    ty1: &Ty,
    ty2: &Ty,
    yes1: bool,
    yes2: bool,
    inner1: Option<&Ty>,
    inner2: Option<&Ty>,
)
    requires
        ty1@ == ty2@,
        yes1 == is_option(ty1@),
        yes2 == is_option(ty2@),
        inner1.deep_view() == option_inner(ty1@),
        inner2.deep_view() == option_inner(ty2@),
    ensures
        yes1 == yes2,
        inner1.deep_view() == inner2.deep_view(),
{
}

/// Two types built from names and generic parameters of the same values
/// have the same value.
pub proof fn lemma_struct_ty_repeats(
    name1: Ident,
    name2: Ident,
    generics1: &Generics,
    generics2: &Generics,
    ty1: Ty,
    ty2: Ty,
)
    requires
        name1@ == name2@,
        generics1@ == generics2@,
        ty1@ == struct_ty_of(name1@, generics1@),
        ty2@ == struct_ty_of(name2@, generics2@),
    ensures
        ty1@ == ty2@,
{
}

/// Two extractions of the options from attributes of the same values give
/// settings of the same values, or the same error.
pub proof fn lemma_get_options_from_input_repeats(
    attrs1: &[Attribute],
    attrs2: &[Attribute],
    options1: Result<Option<Vec<MetaItem>>, ConfigError>,
    options2: Result<Option<Vec<MetaItem>>, ConfigError>,
)
    requires
        attrs1.deep_view() == attrs2.deep_view(),
        answer(options1) == options_of(values_of(attrs1.deep_view())),
        answer(options2) == options_of(values_of(attrs2.deep_view())),
    ensures
        answer(options1) == answer(options2),
{
}

/// Two lookups of an option by the same name among settings of the same
/// values give the same answer, whether the option is required or not.
pub proof fn lemma_get_option_repeats(
    options1: &[MetaItem],
    options2: &[MetaItem],
    name1: &str,
    name2: &str,
    optional1: Result<Option<&str>, ConfigError>,
    optional2: Result<Option<&str>, ConfigError>,
    required1: Result<&str, ConfigError>,
    required2: Result<&str, ConfigError>,
)
    requires
        options1.deep_view() == options2.deep_view(),
        name1@ == name2@,
        answer(optional1) == str_value_named(options1.deep_view(), name1@),
        answer(optional2) == str_value_named(options2.deep_view(), name2@),
        answer(required1) == required_option(options1.deep_view(), name1@),
        answer(required2) == required_option(options2.deep_view(), name2@),
    ensures
        answer(optional1) == answer(optional2),
        answer(required1) == answer(required2),
{
}

} // verus!
