use codegen_util::{
    inner_of_option_ty, is_option_ty, same_text, struct_ty, ty_ident,
    AngleBracketedParameterData, Generics, Ident, Lifetime, ParenthesizedParameterData, Path,
    PathParameters, PathSegment, QSelf, Ty, TypeBinding,
};

fn no_parameters() -> PathParameters {
    PathParameters::AngleBracketed(AngleBracketedParameterData {
        lifetimes: vec![],
        types: vec![],
        bindings: vec![],
    })
}

fn with_types(name: &str, types: Vec<Ty>) -> Ty {
    Ty::Path(
        None,
        Path {
            global: false,
            segments: vec![PathSegment {
                ident: Ident::new(name),
                parameters: PathParameters::AngleBracketed(AngleBracketedParameterData {
                    lifetimes: vec![],
                    types,
                    bindings: vec![],
                }),
            }],
        },
    )
}

fn lifetime(name: &str) -> Lifetime {
    Lifetime { ident: Ident::new(name) }
}

#[test]
fn ty_ident_is_a_bare_name() {
    let expected = Ty::Path(
        None,
        Path {
            global: false,
            segments: vec![PathSegment { ident: Ident::new("T"), parameters: no_parameters() }],
        },
    );
    assert_eq!(ty_ident(Ident::new("T")), expected);
    assert_eq!(ty_ident(Ident::new("T")), with_types("T", vec![]));
}

#[test]
fn struct_ty_takes_lifetimes_then_types() {
    let generics = Generics {
        lifetimes: vec![lifetime("'a")],
        ty_params: vec![Ident::new("T"), Ident::new("U")],
    };
    let expected = Ty::Path(
        None,
        Path {
            global: false,
            segments: vec![PathSegment {
                ident: Ident::new("Foo"),
                parameters: PathParameters::AngleBracketed(AngleBracketedParameterData {
                    lifetimes: vec![lifetime("'a")],
                    types: vec![ty_ident(Ident::new("T")), ty_ident(Ident::new("U"))],
                    bindings: vec![],
                }),
            }],
        },
    );
    assert_eq!(struct_ty(Ident::new("Foo"), &generics), expected);
}

#[test]
fn struct_ty_keeps_the_order() {
    let generics = Generics {
        lifetimes: vec![lifetime("'b"), lifetime("'a"), lifetime("'c")],
        ty_params: vec![Ident::new("Z"), Ident::new("A"), Ident::new("M")],
    };
    match struct_ty(Ident::new("Foo"), &generics) {
        Ty::Path(None, path) => {
            assert!(!path.global);
            assert_eq!(path.segments.len(), 1);
            assert_eq!(path.segments[0].ident.as_str(), "Foo");
            match &path.segments[0].parameters {
                PathParameters::AngleBracketed(data) => {
                    assert_eq!(data.lifetimes, generics.lifetimes);
                    assert_eq!(
                        data.types,
                        vec![
                            ty_ident(Ident::new("Z")),
                            ty_ident(Ident::new("A")),
                            ty_ident(Ident::new("M"))
                        ]
                    );
                    assert!(data.bindings.is_empty());
                }
                other => panic!("{:?}", other),
            }
        }
        other => panic!("{:?}", other),
    }
}

#[test]
fn struct_ty_without_generics_is_the_bare_name() {
    let generics = Generics { lifetimes: vec![], ty_params: vec![] };
    assert_eq!(struct_ty(Ident::new("Foo"), &generics), ty_ident(Ident::new("Foo")));
}

#[test]
fn struct_ty_repeats() {
    let generics = Generics { lifetimes: vec![lifetime("'a")], ty_params: vec![Ident::new("T")] };
    let copy = generics.clone();
    assert_eq!(copy, generics);
    assert_eq!(
        struct_ty(Ident::new("Foo"), &generics),
        struct_ty(Ident::new("Foo"), &generics)
    );
    assert_eq!(struct_ty(Ident::new("Foo"), &generics), struct_ty(Ident::new("Foo"), &copy));
}

#[test]
fn option_is_known_by_its_name() {
    let string = ty_ident(Ident::new("String"));
    let option = with_types("Option", vec![ty_ident(Ident::new("String"))]);
    assert!(is_option_ty(&option));
    assert!(!is_option_ty(&string));
    assert!(!is_option_ty(&with_types("Vec", vec![ty_ident(Ident::new("String"))])));
    assert!(!is_option_ty(&with_types("option", vec![ty_ident(Ident::new("String"))])));
    assert!(!is_option_ty(&with_types("Options", vec![ty_ident(Ident::new("String"))])));
    assert!(!is_option_ty(&with_types("Optio", vec![ty_ident(Ident::new("String"))])));
}

#[test]
fn option_needs_no_argument_to_be_one() {
    assert!(is_option_ty(&ty_ident(Ident::new("Option"))));
    assert!(is_option_ty(&with_types(
        "Option",
        vec![ty_ident(Ident::new("A")), ty_ident(Ident::new("B"))]
    )));
}

#[test]
fn option_is_decided_by_the_first_segment() {
    let segment = |name: &str| PathSegment { ident: Ident::new(name), parameters: no_parameters() };
    let first = Ty::Path(
        None,
        Path { global: true, segments: vec![segment("Option"), segment("Other")] },
    );
    let last = Ty::Path(
        None,
        Path { global: false, segments: vec![segment("std"), segment("option"), segment("Option")] },
    );
    assert!(is_option_ty(&first));
    assert!(!is_option_ty(&last));
    assert_eq!(inner_of_option_ty(&last), None);
}

#[test]
fn qualified_path_is_judged_by_its_path() {
    let qself = QSelf { ty: Box::new(ty_ident(Ident::new("T"))), position: 0 };
    let ty = Ty::Path(
        Some(qself),
        Path {
            global: false,
            segments: vec![PathSegment { ident: Ident::new("Option"), parameters: no_parameters() }],
        },
    );
    assert!(is_option_ty(&ty));
    assert_eq!(inner_of_option_ty(&ty), None);
}

#[test]
fn what_is_no_path_is_no_option() {
    let reference = Ty::Other("&'a str".to_string());
    let named = Ty::Other("Option".to_string());
    let empty = Ty::Path(None, Path { global: false, segments: vec![] });
    for ty in [reference, named, empty] {
        assert!(!is_option_ty(&ty));
        assert_eq!(inner_of_option_ty(&ty), None);
    }
}

#[test]
fn inner_of_option_is_its_first_type() {
    let option = with_types("Option", vec![ty_ident(Ident::new("String"))]);
    let inner = inner_of_option_ty(&option).unwrap();
    assert_eq!(inner, &ty_ident(Ident::new("String")));
    match &option {
        Ty::Path(_, path) => match &path.segments[0].parameters {
            PathParameters::AngleBracketed(data) => assert!(std::ptr::eq(inner, &data.types[0])),
            other => panic!("{:?}", other),
        },
        other => panic!("{:?}", other),
    }
    let two = with_types("Option", vec![Ty::Other("&str".to_string()), ty_ident(Ident::new("B"))]);
    assert_eq!(inner_of_option_ty(&two), Some(&Ty::Other("&str".to_string())));
}

#[test]
fn inner_of_what_is_no_option_is_none() {
    assert_eq!(inner_of_option_ty(&ty_ident(Ident::new("String"))), None);
    assert_eq!(
        inner_of_option_ty(&with_types("Vec", vec![ty_ident(Ident::new("String"))])),
        None
    );
}

#[test]
fn inner_of_option_without_types_is_none() {
    assert_eq!(inner_of_option_ty(&ty_ident(Ident::new("Option"))), None);
    let only_lifetime = Ty::Path(
        None,
        Path {
            global: false,
            segments: vec![PathSegment {
                ident: Ident::new("Option"),
                parameters: PathParameters::AngleBracketed(AngleBracketedParameterData {
                    lifetimes: vec![lifetime("'a")],
                    types: vec![],
                    bindings: vec![],
                }),
            }],
        },
    );
    assert_eq!(inner_of_option_ty(&only_lifetime), None);
    let parenthesized = Ty::Path(
        None,
        Path {
            global: false,
            segments: vec![PathSegment {
                ident: Ident::new("Option"),
                parameters: PathParameters::Parenthesized(ParenthesizedParameterData {
                    inputs: vec![ty_ident(Ident::new("A"))],
                    output: Some(ty_ident(Ident::new("B"))),
                }),
            }],
        },
    );
    assert!(is_option_ty(&parenthesized));
    assert_eq!(inner_of_option_ty(&parenthesized), None);
}

#[test]
fn option_inspection_repeats() {
    let option = with_types("Option", vec![ty_ident(Ident::new("String"))]);
    let again = with_types("Option", vec![ty_ident(Ident::new("String"))]);
    assert_eq!(is_option_ty(&option), is_option_ty(&option));
    assert_eq!(inner_of_option_ty(&option), inner_of_option_ty(&option));
    assert_eq!(inner_of_option_ty(&option), inner_of_option_ty(&again));
}

#[test]
fn same_text_compares_characters() {
    assert!(same_text("", ""));
    assert!(same_text("Option", "Option"));
    assert!(!same_text("Option", "option"));
    assert!(!same_text("Option", "Options"));
    assert!(!same_text("Options", "Option"));
    assert!(!same_text("", "a"));
    assert!(same_text("na\u{ef}ve", "na\u{ef}ve"));
    assert!(!same_text("na\u{ef}ve", "naive"));
    assert!(!same_text("\u{e9}", "e\u{301}"));
}

#[test]
fn clone_keeps_every_part_of_a_type() {
    let parenthesized = PathSegment {
        ident: Ident::new("Fn"),
        parameters: PathParameters::Parenthesized(ParenthesizedParameterData {
            inputs: vec![ty_ident(Ident::new("A")), Ty::Other("&str".to_string())],
            output: Some(ty_ident(Ident::new("B"))),
        }),
    };
    let bracketed = PathSegment {
        ident: Ident::new("Iterator"),
        parameters: PathParameters::AngleBracketed(AngleBracketedParameterData {
            lifetimes: vec![lifetime("'a"), lifetime("'b")],
            types: vec![with_types("Option", vec![ty_ident(Ident::new("T"))])],
            bindings: vec![TypeBinding { ident: Ident::new("Item"), ty: ty_ident(Ident::new("U")) }],
        }),
    };
    let ty = Ty::Path(
        Some(QSelf { ty: Box::new(with_types("Vec", vec![ty_ident(Ident::new("T"))])), position: 1 }),
        Path { global: true, segments: vec![bracketed, parenthesized] },
    );
    assert_eq!(ty.clone(), ty);
    let other = Ty::Other("(A, B)".to_string());
    assert_eq!(other.clone(), other);
    assert_ne!(ty.clone(), other);
}

#[test]
fn inner_of_option_can_be_kept() {
    let option = with_types("Option", vec![with_types("Vec", vec![ty_ident(Ident::new("u8"))])]);
    let inner: Ty = inner_of_option_ty(&option).unwrap().clone();
    drop(option);
    assert_eq!(inner, with_types("Vec", vec![ty_ident(Ident::new("u8"))]));
}
