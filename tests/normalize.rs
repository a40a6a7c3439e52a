use ts_decl::{make_lifetimes_static, GenericArg, Scope, TypeExpr};

fn name(s: &str) -> TypeExpr {
    TypeExpr::Name(s.to_string())
}

fn reference(scope: Option<Scope>, mutable: bool, referent: TypeExpr) -> TypeExpr {
    TypeExpr::Reference { scope, mutable, referent: Box::new(referent) }
}

fn apply(base: &str, args: Vec<GenericArg>) -> TypeExpr {
    TypeExpr::Apply { base: base.to_string(), args }
}

fn named_scope(s: &str) -> Scope {
    Scope::Named(s.to_string())
}

#[test]
fn scoped_reference_to_text_gets_static_scope() {
    let t = reference(Some(named_scope("a")), false, name("str"));
    assert_eq!(make_lifetimes_static(&t), reference(Some(Scope::Static), false, name("str")));
}

#[test]
fn anonymous_scope_gets_static_scope() {
    let t = reference(Some(Scope::Anonymous), true, name("u8"));
    assert_eq!(make_lifetimes_static(&t), reference(Some(Scope::Static), true, name("u8")));
}

#[test]
fn reference_without_scope_stays_without() {
    let t = reference(None, false, name("str"));
    assert_eq!(make_lifetimes_static(&t), reference(None, false, name("str")));
}

#[test]
fn nested_arguments_and_reference_to_reference_are_erased() {
    // Cow<'a, [&'b &'c mut T]>
    let t = apply(
        "std::borrow::Cow",
        vec![
            GenericArg::Lifetime(named_scope("a")),
            GenericArg::Type(TypeExpr::Slice(Box::new(reference(
                Some(named_scope("b")),
                false,
                reference(Some(named_scope("c")), true, name("T")),
            )))),
        ],
    );
    let expected = apply(
        "std::borrow::Cow",
        vec![
            GenericArg::Lifetime(Scope::Static),
            GenericArg::Type(TypeExpr::Slice(Box::new(reference(
                Some(Scope::Static),
                false,
                reference(Some(Scope::Static), true, name("T")),
            )))),
        ],
    );
    assert_eq!(make_lifetimes_static(&t), expected);
}

#[test]
fn binding_tuple_and_array_are_erased_inside() {
    // (Box<dyn Iterator<Item = &'a str>>-like binding, [&'b u8; 4])
    let t = TypeExpr::Tuple(vec![
        apply(
            "Iter",
            vec![GenericArg::Binding {
                name: "Item".to_string(),
                ty: reference(Some(named_scope("a")), false, name("str")),
            }],
        ),
        TypeExpr::Array {
            element: Box::new(reference(Some(named_scope("b")), false, name("u8"))),
            len: "4".to_string(),
        },
    ]);
    let expected = TypeExpr::Tuple(vec![
        apply(
            "Iter",
            vec![GenericArg::Binding {
                name: "Item".to_string(),
                ty: reference(Some(Scope::Static), false, name("str")),
            }],
        ),
        TypeExpr::Array {
            element: Box::new(reference(Some(Scope::Static), false, name("u8"))),
            len: "4".to_string(),
        },
    ]);
    assert_eq!(make_lifetimes_static(&t), expected);
}

#[test]
fn erasing_twice_equals_erasing_once() {
    let t = apply(
        "HashMap",
        vec![
            GenericArg::Type(reference(Some(named_scope("k")), false, name("str"))),
            GenericArg::Lifetime(Scope::Anonymous),
            GenericArg::Const("N".to_string()),
        ],
    );
    let once = make_lifetimes_static(&t);
    let twice = make_lifetimes_static(&once);
    assert_eq!(once, twice);
}

#[test]
fn structure_without_scopes_is_unchanged() {
    let t = apply(
        "HashMap",
        vec![
            GenericArg::Type(name("String")),
            GenericArg::Type(apply("Vec", vec![GenericArg::Type(name("u8"))])),
            GenericArg::Const("3".to_string()),
        ],
    );
    let r = make_lifetimes_static(&t);
    assert_eq!(r, t);
}

#[test]
fn input_is_left_as_it_was() {
    let t = reference(Some(named_scope("a")), false, name("str"));
    let _ = make_lifetimes_static(&t);
    assert_eq!(t, reference(Some(named_scope("a")), false, name("str")));
}
