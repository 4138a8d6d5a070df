//! Building the type that names a declaration.

use vstd::prelude::*;
use crate::meta::Ident;
use crate::ty::{
    clone_lifetimes, AngleBracketedParameterData, AngleBracketedView, Generics, GenericsView,
    Path, PathParameters, PathParametersView, PathSegment, PathSegmentView, PathView, Ty, TyView,
};

verus! {

/// The path of one segment `name<lifetimes, types>`: not global, not
/// qualified, without bindings.
pub open spec fn one_segment(
    name: Seq<char>,
    lifetimes: Seq<Seq<char>>,
    types: Seq<TyView>,
) -> TyView {
    TyView::Path(
        None,
        PathView {
            global: false,
            segments: seq![
                PathSegmentView {
                    ident: name,
                    parameters: PathParametersView::AngleBracketed(
                        AngleBracketedView { lifetimes, types, bindings: Seq::empty() },
                    ),
                },
            ],
        },
    )
}

/// The type that is written as the bare name `name`.
pub open spec fn bare_ty(name: Seq<char>) -> TyView {
    one_segment(name, Seq::empty(), Seq::empty())
}

/// The type `name<'a, .., T, ..>`: `name` with the lifetimes of `generics`,
/// then its type parameters, each as a bare name, both in their own order.
pub open spec fn struct_ty_of(name: Seq<char>, generics: GenericsView) -> TyView {
    one_segment(
        name,
        generics.lifetimes,
        Seq::new(generics.ty_params.len(), |i: int| bare_ty(generics.ty_params[i])),
    )
}

/// The type that is written as the bare name `ident`.
pub fn ty_ident(ident: Ident) -> (ty: Ty)
    ensures
        ty@ == bare_ty(ident@),
{
    let data = AngleBracketedParameterData {
        lifetimes: Vec::new(),
        types: Vec::new(),
        bindings: Vec::new(),
    };
    let segment = PathSegment { ident, parameters: PathParameters::AngleBracketed(data) };
    let path = Path { global: false, segments: vec![segment] };
    let ty = Ty::Path(None, path);
    proof {
        assert(data@.lifetimes =~= Seq::empty());
        assert(data@.types =~= Seq::empty());
        assert(data@.bindings =~= Seq::empty());
        assert(path@.segments =~= seq![segment@]);
    }
    ty
}

/// The type of a declaration named `name` with the generic parameters
/// `generics`, as it is written inside the declaration: `Foo<'a, T, U>` for
/// `struct Foo<'a, T, U>`.
pub fn struct_ty(name: Ident, generics: &Generics) -> (ty: Ty)
    ensures
        ty@ == struct_ty_of(name@, generics@),
{
    let lifetimes = clone_lifetimes(&generics.lifetimes);
    let mut types: Vec<Ty> = Vec::new();
    let mut j: usize = 0;
    while j < generics.ty_params.len()
        invariant
            j <= generics.ty_params@.len(),
            types@.len() == j,
            forall|k: int| 0 <= k < j ==> types@[k]@ == bare_ty(generics.ty_params@[k]@),
        decreases generics.ty_params@.len() - j,
    {
        types.push(ty_ident(generics.ty_params[j].clone()));
        j += 1;
    }
    let data = AngleBracketedParameterData { lifetimes, types, bindings: Vec::new() };
    let segment = PathSegment { ident: name, parameters: PathParameters::AngleBracketed(data) };
    let path = Path { global: false, segments: vec![segment] };
    let ty = Ty::Path(None, path);
    proof {
        assert(data@.lifetimes =~= generics@.lifetimes);
        assert(data@.types =~= Seq::new(
            generics@.ty_params.len(),
            |i: int| bare_ty(generics@.ty_params[i]),
        ));
        assert(data@.bindings =~= Seq::empty());
        assert(path@.segments =~= seq![segment@]);
    }
    ty
}

} // verus!
