//! Recognising `Option<..>` and finding what it wraps.
//!
//! A type is taken for an option by its name alone: a path whose first
//! segment is called `Option`, whatever else the path holds.

use vstd::prelude::*;
use crate::text::same_text;
use crate::ty::{PathParameters, PathParametersView, Ty, TyView};

verus! {

/// Whether `ty` is a path whose first segment is named `Option`.
pub open spec fn is_option(ty: TyView) -> bool {
    match ty {
        TyView::Path(_, path) => path.segments.len() > 0 && path.segments[0].ident == "Option"@,
        TyView::Other(_) => false,
    }
}

/// The first type between the angle brackets of the first segment of `ty`,
/// where `ty` is an option and has one.
pub open spec fn option_inner(ty: TyView) -> Option<TyView> {
    match ty {
        TyView::Path(_, path) => if is_option(ty) {
            match path.segments[0].parameters {
                PathParametersView::AngleBracketed(data) => if data.types.len() > 0 {
                    Some(data.types[0])
                } else {
                    None
                },
                PathParametersView::Parenthesized(_) => None,
            }
        } else {
            None
        },
        TyView::Other(_) => None,
    }
}

/// Whether `ty` is an option.
pub fn is_option_ty(ty: &Ty) -> (yes: bool)
    ensures
        yes == is_option(ty@),
{
    match ty {
        Ty::Path(_, path) => {
            proof {
                path.lemma_view_segments();
            }
            if path.segments.len() == 0 {
                false
            } else {
                same_text(path.segments[0].ident.as_str(), "Option")
            }
        },
        Ty::Other(_) => false,
    }
}

/// The type that the option `ty` wraps: the `T` of `Option<T>`.
///
/// There is none where `ty` is no option, and none where it is one without a
/// type between angle brackets.
pub fn inner_of_option_ty(ty: &Ty) -> (inner: Option<&Ty>)
    ensures
        inner.deep_view() == option_inner(ty@),
{
    if !is_option_ty(ty) {
        return None;
    }
    match ty {
        Ty::Path(_, path) => {
            proof {
                path.lemma_view_segments();
            }
            match &path.segments[0].parameters {
                PathParameters::AngleBracketed(data) => {
                    proof {
                        data.lemma_view_parameters();
                    }
                    if data.types.len() == 0 {
                        None
                    } else {
                        Some(&data.types[0])
                    }
                },
                PathParameters::Parenthesized(_) => None,
            }
        },
        Ty::Other(_) => None,
    }
}

} // verus!
