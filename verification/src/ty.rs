//! Types as they are written in source text, and the generic parameters of a
//! declaration.
//!
//! A type that is a path (`Foo`, `std::vec::Vec<T>`, `Option<&'a str>`) is
//! held piece by piece. Any other type (a reference, a tuple, a slice, ..) is
//! held as its source text.

use vstd::prelude::*;
use crate::meta::Ident;

verus! {

/// A lifetime, `'a`.
#[derive(Debug, PartialEq, Eq, Hash)]
pub struct Lifetime {
    pub ident: Ident,
}

impl View for Lifetime {
    type V = Seq<char>;

    open spec fn view(&self) -> Seq<char> {
        self.ident@
    }
}

impl Clone for Lifetime {
    fn clone(&self) -> (copy: Lifetime)
        ensures
            copy@ == self@,
    {
        Lifetime { ident: self.ident.clone() }
    }
}

/// The lifetimes and the type parameters that a declaration is generic over,
/// each in the order of the declaration.
#[derive(Debug, PartialEq, Eq, Hash)]
pub struct Generics {
    pub lifetimes: Vec<Lifetime>,
    pub ty_params: Vec<Ident>,
}

/// The value of a [`Generics`].
pub struct GenericsView {
    pub lifetimes: Seq<Seq<char>>,
    pub ty_params: Seq<Seq<char>>,
}

impl View for Generics {
    type V = GenericsView;

    open spec fn view(&self) -> GenericsView {
        GenericsView {
            lifetimes: Seq::new(self.lifetimes@.len(), |i: int| self.lifetimes@[i]@),
            ty_params: Seq::new(self.ty_params@.len(), |i: int| self.ty_params@[i]@),
        }
    }
}

impl Clone for Generics {
    fn clone(&self) -> (copy: Generics)
        ensures
            copy@ == self@,
    {
        let mut ty_params: Vec<Ident> = Vec::new();
        let mut i: usize = 0;
        while i < self.ty_params.len()
            invariant
                i <= self.ty_params@.len(),
                ty_params@.len() == i,
                forall|k: int| 0 <= k < i ==> ty_params@[k]@ == self.ty_params@[k]@,
            decreases self.ty_params@.len() - i,
        {
            ty_params.push(self.ty_params[i].clone());
            i += 1;
        }
        let copy = Generics { lifetimes: clone_lifetimes(&self.lifetimes), ty_params };
        assert(copy@.lifetimes =~= self@.lifetimes);
        assert(copy@.ty_params =~= self@.ty_params);
        copy
    }
}

/// A type.
#[derive(Debug, PartialEq, Eq, Hash)]
pub enum Ty {
    /// A path, `module::Type<..>`, which may be qualified:
    /// `<Vec<T> as SomeTrait>::SomeType`.
    Path(Option<QSelf>, Path),
    /// A type that is no path, as its source text.
    Other(String),
}

/// The `Vec<T>` of `<Vec<T> as a::b::Trait>::AssociatedItem`, with the number
/// of segments that belong to the trait (here 3).
#[derive(Debug, PartialEq, Eq, Hash)]
pub struct QSelf {
    pub ty: Box<Ty>,
    pub position: usize,
}

/// A name made of segments, `std::cmp::PartialEq`.
#[derive(Debug, PartialEq, Eq, Hash)]
pub struct Path {
    /// Whether the path starts at the crate root, `::foo`.
    pub global: bool,
    /// What stands between the `::`.
    pub segments: Vec<PathSegment>,
}

/// One segment of a path: `std`, `String` or `Box<T>`.
#[derive(Debug, PartialEq, Eq, Hash)]
pub struct PathSegment {
    pub ident: Ident,
    pub parameters: PathParameters,
}

/// What follows the name in a segment: `<A, B>` of `Foo<A, B>`, or `(A, B)`
/// of `Foo(A, B)`.
#[derive(Debug, PartialEq, Eq, Hash)]
pub enum PathParameters {
    AngleBracketed(AngleBracketedParameterData),
    Parenthesized(ParenthesizedParameterData),
}

/// The `<'a, A, B, Item = C>` of a segment. A segment without parameters has
/// three empty lists.
#[derive(Debug, PartialEq, Eq, Hash)]
pub struct AngleBracketedParameterData {
    pub lifetimes: Vec<Lifetime>,
    pub types: Vec<Ty>,
    pub bindings: Vec<TypeBinding>,
}

/// `Item = C` among a segment's parameters.
#[derive(Debug, PartialEq, Eq, Hash)]
pub struct TypeBinding {
    pub ident: Ident,
    pub ty: Ty,
}

/// The `(A, B) -> C` of a segment.
#[derive(Debug, PartialEq, Eq, Hash)]
pub struct ParenthesizedParameterData {
    pub inputs: Vec<Ty>,
    pub output: Option<Ty>,
}

/// The value of a [`Ty`].
pub enum TyView {
    Path(Option<QSelfView>, PathView),
    Other(Seq<char>),
}

/// The value of a [`QSelf`].
pub struct QSelfView {
    pub ty: Box<TyView>,
    pub position: usize,
}

/// The value of a [`Path`].
pub struct PathView {
    pub global: bool,
    pub segments: Seq<PathSegmentView>,
}

/// The value of a [`PathSegment`].
pub struct PathSegmentView {
    pub ident: Seq<char>,
    pub parameters: PathParametersView,
}

/// The value of a [`PathParameters`].
pub enum PathParametersView {
    AngleBracketed(AngleBracketedView),
    Parenthesized(ParenthesizedView),
}

/// The value of an [`AngleBracketedParameterData`].
pub struct AngleBracketedView {
    pub lifetimes: Seq<Seq<char>>,
    pub types: Seq<TyView>,
    pub bindings: Seq<TypeBindingView>,
}

/// The value of a [`TypeBinding`].
pub struct TypeBindingView {
    pub ident: Seq<char>,
    pub ty: TyView,
}

/// The value of a [`ParenthesizedParameterData`].
pub struct ParenthesizedView {
    pub inputs: Seq<TyView>,
    pub output: Option<TyView>,
}

impl View for Ty {
    type V = TyView;

    open spec fn view(&self) -> TyView
        decreases self,
    {
        match self {
            Ty::Path(qself, path) => TyView::Path(
                match qself {
                    Some(q) => Some(q@),
                    None => None,
                },
                path@,
            ),
            Ty::Other(text) => TyView::Other(text@),
        }
    }
}

impl DeepView for Ty {
    type V = TyView;

    open spec fn deep_view(&self) -> TyView {
        self@
    }
}

impl View for QSelf {
    type V = QSelfView;

    open spec fn view(&self) -> QSelfView
        decreases self,
    {
        QSelfView { ty: Box::new((*self.ty)@), position: self.position }
    }
}

impl View for Path {
    type V = PathView;

    open spec fn view(&self) -> PathView
        decreases self,
    {
        PathView {
            global: self.global,
            segments: Seq::new(
                self.segments@.len(),
                |i: int|
                    if 0 <= i < self.segments@.len() {
                        self.segments@[i]@
                    } else {
                        arbitrary()
                    },
            ),
        }
    }
}

impl View for PathSegment {
    type V = PathSegmentView;

    open spec fn view(&self) -> PathSegmentView
        decreases self,
    {
        PathSegmentView { ident: self.ident@, parameters: self.parameters@ }
    }
}

impl View for PathParameters {
    type V = PathParametersView;

    open spec fn view(&self) -> PathParametersView
        decreases self,
    {
        match self {
            PathParameters::AngleBracketed(data) => PathParametersView::AngleBracketed(data@),
            PathParameters::Parenthesized(data) => PathParametersView::Parenthesized(data@),
        }
    }
}

impl View for AngleBracketedParameterData {
    type V = AngleBracketedView;

    open spec fn view(&self) -> AngleBracketedView
        decreases self,
    {
        AngleBracketedView {
            lifetimes: Seq::new(self.lifetimes@.len(), |i: int| self.lifetimes@[i]@),
            types: Seq::new(
                self.types@.len(),
                |i: int|
                    if 0 <= i < self.types@.len() {
                        self.types@[i]@
                    } else {
                        arbitrary()
                    },
            ),
            bindings: Seq::new(
                self.bindings@.len(),
                |i: int|
                    if 0 <= i < self.bindings@.len() {
                        self.bindings@[i]@
                    } else {
                        arbitrary()
                    },
            ),
        }
    }
}

impl View for TypeBinding {
    type V = TypeBindingView;

    open spec fn view(&self) -> TypeBindingView
        decreases self,
    {
        TypeBindingView { ident: self.ident@, ty: self.ty@ }
    }
}

impl View for ParenthesizedParameterData {
    type V = ParenthesizedView;

    open spec fn view(&self) -> ParenthesizedView
        decreases self,
    {
        ParenthesizedView {
            inputs: Seq::new(
                self.inputs@.len(),
                |i: int|
                    if 0 <= i < self.inputs@.len() {
                        self.inputs@[i]@
                    } else {
                        arbitrary()
                    },
            ),
            output: match self.output {
                Some(ty) => Some(ty@),
                None => None,
            },
        }
    }
}

impl Path {
    /// The value of a path holds the values of its segments, one for one.
    pub proof fn lemma_view_segments(self)
        ensures
            self@.global == self.global,
            self@.segments.len() == self.segments@.len(),
            forall|i: int|
                0 <= i < self.segments@.len() ==> self@.segments[i] == (
                #[trigger] self.segments@[i])@,
    {
        assert forall|i: int| 0 <= i < self.segments@.len() implies (
        #[trigger] self.segments@[i])@.ident == self.segments@[i].ident@ by {}
    }
}

impl AngleBracketedParameterData {
    /// The value of a segment's parameters holds the values of its
    /// lifetimes, of its types and of its bindings, one for one.
    pub proof fn lemma_view_parameters(self)
        ensures
            self@.lifetimes.len() == self.lifetimes@.len(),
            forall|i: int|
                0 <= i < self.lifetimes@.len() ==> self@.lifetimes[i] == (
                #[trigger] self.lifetimes@[i])@,
            self@.types.len() == self.types@.len(),
            forall|i: int|
                0 <= i < self.types@.len() ==> self@.types[i] == (#[trigger] self.types@[i])@,
            self@.bindings.len() == self.bindings@.len(),
            forall|i: int|
                0 <= i < self.bindings@.len() ==> self@.bindings[i] == (
                #[trigger] self.bindings@[i])@,
    {
        assert forall|i: int| 0 <= i < self.types@.len() implies ((
        #[trigger] self.types@[i])@ is Other) == (self.types@[i] is Other) by {}
        assert forall|i: int| 0 <= i < self.bindings@.len() implies (
        #[trigger] self.bindings@[i])@.ident == self.bindings@[i].ident@ by {}
    }
}

/// A copy of each lifetime, in the same order.
pub(crate) fn clone_lifetimes(lifetimes: &Vec<Lifetime>) -> (copies: Vec<Lifetime>)
    ensures
        copies@.len() == lifetimes@.len(),
        forall|k: int| 0 <= k < lifetimes@.len() ==> copies@[k]@ == lifetimes@[k]@,
{
    let mut copies: Vec<Lifetime> = Vec::new();
    let mut i: usize = 0;
    while i < lifetimes.len()
        invariant
            i <= lifetimes@.len(),
            copies@.len() == i,
            forall|k: int| 0 <= k < i ==> copies@[k]@ == lifetimes@[k]@,
        decreases lifetimes@.len() - i,
    {
        copies.push(lifetimes[i].clone());
        i += 1;
    }
    copies
}

/// A copy of each type, in the same order.
fn clone_types(types: &Vec<Ty>) -> (copies: Vec<Ty>)
    ensures
        copies@.len() == types@.len(),
        forall|k: int| 0 <= k < types@.len() ==> copies@[k]@ == types@[k]@,
    decreases types,
{
    let mut copies: Vec<Ty> = Vec::new();
    let mut i: usize = 0;
    while i < types.len()
        invariant
            i <= types@.len(),
            copies@.len() == i,
            forall|k: int| 0 <= k < i ==> copies@[k]@ == types@[k]@,
        decreases types@.len() - i,
    {
        copies.push(types[i].clone());
        i += 1;
    }
    copies
}

impl Clone for Ty {
    fn clone(&self) -> (copy: Ty)
        ensures
            copy@ == self@,
        decreases self,
    {
        match self {
            Ty::Path(qself, path) => {
                let qself_copy = match qself {
                    Some(q) => Some(q.clone()),
                    None => None,
                };
                Ty::Path(qself_copy, path.clone())
            },
            Ty::Other(text) => Ty::Other(text.clone()),
        }
    }
}

impl Clone for QSelf {
    fn clone(&self) -> (copy: QSelf)
        ensures
            copy@ == self@,
        decreases self,
    {
        QSelf { ty: Box::new((*self.ty).clone()), position: self.position }
    }
}

impl Clone for Path {
    fn clone(&self) -> (copy: Path)
        ensures
            copy@ == self@,
        decreases self,
    {
        let mut segments: Vec<PathSegment> = Vec::new();
        let mut i: usize = 0;
        while i < self.segments.len()
            invariant
                i <= self.segments@.len(),
                segments@.len() == i,
                forall|k: int| 0 <= k < i ==> segments@[k]@ == self.segments@[k]@,
            decreases self.segments@.len() - i,
        {
            assert(decreases_to!(*self => self.segments));
            segments.push(self.segments[i].clone());
            i += 1;
        }
        let copy = Path { global: self.global, segments };
        proof {
            self.lemma_view_segments();
            copy.lemma_view_segments();
            assert(copy@.segments =~= self@.segments);
        }
        copy
    }
}

impl Clone for PathSegment {
    fn clone(&self) -> (copy: PathSegment)
        ensures
            copy@ == self@,
        decreases self,
    {
        PathSegment { ident: self.ident.clone(), parameters: self.parameters.clone() }
    }
}

impl Clone for PathParameters {
    fn clone(&self) -> (copy: PathParameters)
        ensures
            copy@ == self@,
        decreases self,
    {
        match self {
            PathParameters::AngleBracketed(data) => PathParameters::AngleBracketed(data.clone()),
            PathParameters::Parenthesized(data) => PathParameters::Parenthesized(data.clone()),
        }
    }
}

impl Clone for AngleBracketedParameterData {
    fn clone(&self) -> (copy: AngleBracketedParameterData)
        ensures
            copy@ == self@,
        decreases self,
    {
        let mut bindings: Vec<TypeBinding> = Vec::new();
        let mut i: usize = 0;
        while i < self.bindings.len()
            invariant
                i <= self.bindings@.len(),
                bindings@.len() == i,
                forall|k: int| 0 <= k < i ==> bindings@[k]@ == self.bindings@[k]@,
            decreases self.bindings@.len() - i,
        {
            assert(decreases_to!(*self => self.bindings));
            bindings.push(self.bindings[i].clone());
            i += 1;
        }
        let copy = AngleBracketedParameterData {
            lifetimes: clone_lifetimes(&self.lifetimes),
            types: clone_types(&self.types),
            bindings,
        };
        proof {
            self.lemma_view_parameters();
            copy.lemma_view_parameters();
            assert(copy@.lifetimes =~= self@.lifetimes);
            assert(copy@.types =~= self@.types);
            assert(copy@.bindings =~= self@.bindings);
        }
        copy
    }
}

impl Clone for TypeBinding {
    fn clone(&self) -> (copy: TypeBinding)
        ensures
            copy@ == self@,
        decreases self,
    {
        TypeBinding { ident: self.ident.clone(), ty: self.ty.clone() }
    }
}

impl Clone for ParenthesizedParameterData {
    fn clone(&self) -> (copy: ParenthesizedParameterData)
        ensures
            copy@ == self@,
        decreases self,
    {
        let output = match &self.output {
            Some(ty) => Some(ty.clone()),
            None => None,
        };
        let copy = ParenthesizedParameterData { inputs: clone_types(&self.inputs), output };
        assert(copy@.inputs =~= self@.inputs);
        copy
    }
}

} // verus!
