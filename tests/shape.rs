use ts_decl::{
    classify, fields_from_list, named, newtype, tuple, type_def, unit, Field, FieldListError,
    FieldShape, Fields, GenericArg, GenericParam, GenericsSignature, NamedField, Scope, ShapeKind,
    StructAttr, TypeExpr,
};

fn name(s: &str) -> TypeExpr {
    TypeExpr::Name(s.to_string())
}

fn option_of(t: TypeExpr) -> TypeExpr {
    TypeExpr::Apply { base: "Option".to_string(), args: vec![GenericArg::Type(t)] }
}

fn field(n: &str, ty: TypeExpr) -> NamedField {
    NamedField { name: n.to_string(), ty }
}

fn no_generics() -> GenericsSignature {
    GenericsSignature { params: Vec::new() }
}

fn no_rename() -> StructAttr {
    StructAttr { rename: None }
}

fn scoped_str(scope: &str) -> TypeExpr {
    TypeExpr::Reference {
        scope: Some(Scope::Named(scope.to_string())),
        mutable: false,
        referent: Box::new(name("str")),
    }
}

fn static_str() -> TypeExpr {
    TypeExpr::Reference { scope: Some(Scope::Static), mutable: false, referent: Box::new(name("str")) }
}

#[test]
fn classify_follows_the_table() {
    assert_eq!(classify(&Fields::Unit), ShapeKind::Unit);
    assert_eq!(classify(&Fields::Named(vec![])), ShapeKind::Unit);
    assert_eq!(classify(&Fields::Unnamed(vec![])), ShapeKind::Unit);
    assert_eq!(classify(&Fields::Unnamed(vec![name("u8")])), ShapeKind::Newtype);
    assert_eq!(classify(&Fields::Unnamed(vec![name("u8"), name("u8")])), ShapeKind::Tuple);
    assert_eq!(
        classify(&Fields::Unnamed(vec![name("u8"), name("u16"), name("u32")])),
        ShapeKind::Tuple
    );
    assert_eq!(classify(&Fields::Named(vec![field("a", name("u8"))])), ShapeKind::Named);
    assert_eq!(
        classify(&Fields::Named(vec![field("a", name("u8")), field("b", name("u8"))])),
        ShapeKind::Named
    );
}

#[test]
fn no_fields_declares_unit() {
    let d = type_def(&no_rename(), &"Empty".to_string(), &Fields::Named(vec![]), no_generics());
    assert_eq!(d.name, "Empty");
    assert_eq!(d.shape, FieldShape::Unit);
    let d = type_def(&no_rename(), &"Marker".to_string(), &Fields::Unit, no_generics());
    assert_eq!(d.shape, FieldShape::Unit);
}

#[test]
fn one_unlabelled_text_field_declares_newtype() {
    let d = type_def(&no_rename(), &"Id".to_string(), &Fields::Unnamed(vec![name("String")]), no_generics());
    assert_eq!(d.shape, FieldShape::Newtype(name("String")));
    assert_eq!(classify(&Fields::Unnamed(vec![name("String")])), ShapeKind::Newtype);
}

#[test]
fn two_unlabelled_fields_declare_tuple_in_order() {
    let fields = Fields::Unnamed(vec![name("i32"), name("bool")]);
    let d = type_def(&no_rename(), &"Pair".to_string(), &fields, no_generics());
    assert_eq!(d.shape, FieldShape::Tuple(vec![name("i32"), name("bool")]));
}

#[test]
fn two_labelled_fields_declare_named_in_order() {
    let fields = Fields::Named(vec![field("a", name("i32")), field("b", option_of(name("String")))]);
    let d = type_def(&no_rename(), &"Rec".to_string(), &fields, no_generics());
    assert_eq!(
        d.shape,
        FieldShape::Named(vec![field("a", name("i32")), field("b", option_of(name("String")))])
    );
}

#[test]
fn scoped_reference_field_is_declared_with_static_scope() {
    let fields = Fields::Named(vec![field("text", scoped_str("a"))]);
    let d = type_def(&no_rename(), &"Borrowed".to_string(), &fields, no_generics());
    assert_eq!(d.shape, FieldShape::Named(vec![field("text", static_str())]));
    let d = type_def(&no_rename(), &"Borrowed".to_string(), &Fields::Unnamed(vec![scoped_str("a")]), no_generics());
    assert_eq!(d.shape, FieldShape::Newtype(static_str()));
}

#[test]
fn field_order_is_kept_on_every_run() {
    let make = || {
        Fields::Named(vec![
            field("z", name("u8")),
            field("a", scoped_str("x")),
            field("m", name("bool")),
        ])
    };
    let first = type_def(&no_rename(), &"R".to_string(), &make(), no_generics());
    let second = type_def(&no_rename(), &"R".to_string(), &make(), no_generics());
    assert_eq!(first, second);
    assert_eq!(
        first.shape,
        FieldShape::Named(vec![field("z", name("u8")), field("a", static_str()), field("m", name("bool"))])
    );
    let t = type_def(
        &no_rename(),
        &"T".to_string(),
        &Fields::Unnamed(vec![name("c"), scoped_str("x"), name("a")]),
        no_generics(),
    );
    assert_eq!(t.shape, FieldShape::Tuple(vec![name("c"), static_str(), name("a")]));
}

#[test]
fn rename_takes_the_place_of_the_own_name() {
    let attr = StructAttr { rename: Some("Other".to_string()) };
    let d = type_def(&attr, &"Own".to_string(), &Fields::Unit, no_generics());
    assert_eq!(d.name, "Other");
    let d = type_def(&no_rename(), &"Own".to_string(), &Fields::Unit, no_generics());
    assert_eq!(d.name, "Own");
}

#[test]
fn generics_are_carried_unchanged() {
    let g = || GenericsSignature {
        params: vec![
            GenericParam { name: "T".to_string(), bounds: vec!["Clone".to_string()] },
            GenericParam { name: "'a".to_string(), bounds: vec![] },
        ],
    };
    let d = type_def(&no_rename(), &"G".to_string(), &Fields::Unnamed(vec![name("T")]), g());
    assert_eq!(d.generics, g());
}

#[test]
fn emitters_build_their_shapes() {
    assert_eq!(unit("U".to_string(), no_generics()).shape, FieldShape::Unit);
    assert_eq!(
        newtype("N".to_string(), &scoped_str("a"), no_generics()).shape,
        FieldShape::Newtype(static_str())
    );
    assert_eq!(
        tuple("T".to_string(), &vec![scoped_str("a"), name("u8")], no_generics()).shape,
        FieldShape::Tuple(vec![static_str(), name("u8")])
    );
    let d = named("R".to_string(), &vec![field("s", scoped_str("b"))], no_generics());
    assert_eq!(d.name, "R");
    assert_eq!(d.shape, FieldShape::Named(vec![field("s", static_str())]));
}

#[test]
fn field_list_sorts_into_labelled_or_unlabelled() {
    assert_eq!(fields_from_list(vec![]), Ok(Fields::Unit));
    let labelled = vec![
        Field { label: Some("a".to_string()), ty: name("u8") },
        Field { label: Some("b".to_string()), ty: name("bool") },
    ];
    assert_eq!(
        fields_from_list(labelled),
        Ok(Fields::Named(vec![field("a", name("u8")), field("b", name("bool"))]))
    );
    let unlabelled = vec![Field { label: None, ty: name("u8") }, Field { label: None, ty: name("bool") }];
    assert_eq!(fields_from_list(unlabelled), Ok(Fields::Unnamed(vec![name("u8"), name("bool")])));
}

#[test]
fn mixed_labels_are_refused() {
    let mixed = vec![Field { label: Some("a".to_string()), ty: name("u8") }, Field { label: None, ty: name("bool") }];
    assert_eq!(fields_from_list(mixed), Err(FieldListError::MixedLabels));
    let mixed = vec![Field { label: None, ty: name("u8") }, Field { label: Some("b".to_string()), ty: name("bool") }];
    assert_eq!(fields_from_list(mixed), Err(FieldListError::MixedLabels));
}
