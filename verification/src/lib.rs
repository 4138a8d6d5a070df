//! Resolving attribute metadata and building type expressions for code
//! generation.
//!
//! A declaration comes with attributes (`#[name = "value"]`, `#[name(a, b)]`,
//! `#[options(..)]`) and with generic parameters. The functions of this crate
//! find attributes by name, read their values in the form that a caller
//! expects, recognise `Option<..>` types, and build the type that names a
//! declaration with its own generic parameters.
//!
//! Every function is total. An attribute that is absent is `None`; one that
//! is there in the wrong form is a [`ConfigError`], never a panic. Nothing is
//! kept between calls.

pub mod attr;
pub mod builder;
pub mod error;
pub mod laws;
pub mod meta;
pub mod option_ty;
pub mod options;
pub mod text;
pub mod ty;

pub use crate::attr::{
    attr_with_name, ident_value_of_attr_with_name, list_value_of_attr,
    list_value_of_attr_with_name, str_value_of_attr, str_value_of_attr_with_name,
    str_value_of_meta_item,
};
pub use crate::builder::{struct_ty, ty_ident};
pub use crate::error::{ConfigError, ExpectedForm};
pub use crate::meta::{
    AttrStyle, Attribute, FractionTy, Ident, IntTy, Lit, MetaItem, NestedMetaItem, StrStyle,
};
pub use crate::option_ty::{inner_of_option_ty, is_option_ty};
pub use crate::options::{get_option, get_optional_option, get_options_from_input};
pub use crate::text::same_text;
pub use crate::ty::{
    AngleBracketedParameterData, Generics, Lifetime, ParenthesizedParameterData, Path,
    PathParameters, PathSegment, QSelf, Ty, TypeBinding,
};
