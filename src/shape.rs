//! Field lists, the four declaration shapes, and the declarations built for
//! each.

use vstd::prelude::*;
use crate::types::{type_model, types_model, TypeExpr, TypeModel};
use crate::normalize::{make_lifetimes_static, normalize, normalize_all};

verus! {

/// A labelled field: its name and its type.
#[derive(Debug, PartialEq, Eq)]
pub struct NamedField {
    pub name: String,
    pub ty: TypeExpr,
}

/// The fields of a record, as declared: labelled, unlabelled, or none at all.
#[derive(Debug, PartialEq, Eq)]
pub enum Fields {
    Named(Vec<NamedField>),
    Unnamed(Vec<TypeExpr>),
    Unit,
}

/// The four declaration forms a record can take.
#[derive(PartialEq, Eq, Structural, Clone, Copy, Debug)]
pub enum ShapeKind {
    Unit,
    Newtype,
    Tuple,
    Named,
}

/// The decision table: no fields (or no labelled ones) give `Unit`, one
/// unlabelled field `Newtype`, two or more unlabelled fields `Tuple`, one or
/// more labelled fields `Named`.
pub open spec fn shape_of(f: Fields) -> ShapeKind {
    match f {
        Fields::Named(v) => if v@.len() == 0 {
            ShapeKind::Unit
        } else {
            ShapeKind::Named
        },
        Fields::Unnamed(v) => if v@.len() == 0 {
            ShapeKind::Unit
        } else if v@.len() == 1 {
            ShapeKind::Newtype
        } else {
            ShapeKind::Tuple
        },
        Fields::Unit => ShapeKind::Unit,
    }
}

/// Picks the declaration form of a record from the number of its fields and
/// whether they are labelled.
pub fn classify(fields: &Fields) -> (r: ShapeKind)
    ensures
        r == shape_of(*fields),
{
    match fields {
        Fields::Named(v) => if v.len() == 0 {
            ShapeKind::Unit
        } else {
            ShapeKind::Named
        },
        Fields::Unnamed(v) => if v.len() == 0 {
            ShapeKind::Unit
        } else if v.len() == 1 {
            ShapeKind::Newtype
        } else {
            ShapeKind::Tuple
        },
        Fields::Unit => ShapeKind::Unit,
    }
}

/// The payload of a declaration, one variant per shape.
#[derive(Debug, PartialEq, Eq)]
pub enum FieldShape {
    Unit,
    Newtype(TypeExpr),
    Tuple(Vec<TypeExpr>),
    Named(Vec<NamedField>),
}

/// The mathematical value of a [`FieldShape`].
pub enum ShapeModel {
    Unit,
    Newtype(TypeModel),
    Tuple(Seq<TypeModel>),
    Named(Seq<(Seq<char>, TypeModel)>),
}

impl View for NamedField {
    type V = (Seq<char>, TypeModel);

    open spec fn view(&self) -> (Seq<char>, TypeModel) {
        (self.name@, type_model(self.ty))
    }
}

impl View for FieldShape {
    type V = ShapeModel;

    open spec fn view(&self) -> ShapeModel {
        match self {
            FieldShape::Unit => ShapeModel::Unit,
            FieldShape::Newtype(t) => ShapeModel::Newtype(t@),
            FieldShape::Tuple(v) => ShapeModel::Tuple(types_model(v@)),
            FieldShape::Named(v) => ShapeModel::Named(v@.map_values(|f: NamedField| f@)),
        }
    }
}

/// The shape tag of a payload.
pub open spec fn kind_of(s: ShapeModel) -> ShapeKind {
    match s {
        ShapeModel::Unit => ShapeKind::Unit,
        ShapeModel::Newtype(_) => ShapeKind::Newtype,
        ShapeModel::Tuple(_) => ShapeKind::Tuple,
        ShapeModel::Named(_) => ShapeKind::Named,
    }
}

/// Labelled fields in their declared order, each type erased.
pub open spec fn erase_named(s: Seq<NamedField>) -> Seq<(Seq<char>, TypeModel)> {
    s.map_values(|f: NamedField| (f.name@, normalize(f.ty@)))
}

/// The payload declared for a field list: the shape of the decision table,
/// with every field type erased and the fields in their declared order.
pub open spec fn declared_shape(f: Fields) -> ShapeModel {
    match f {
        Fields::Named(v) => if v@.len() == 0 {
            ShapeModel::Unit
        } else {
            ShapeModel::Named(erase_named(v@))
        },
        Fields::Unnamed(v) => if v@.len() == 0 {
            ShapeModel::Unit
        } else if v@.len() == 1 {
            ShapeModel::Newtype(normalize(v@[0]@))
        } else {
            ShapeModel::Tuple(normalize_all(types_model(v@)))
        },
        Fields::Unit => ShapeModel::Unit,
    }
}

/// One generic parameter of a declaration and its bounds, as written.
#[derive(Debug, PartialEq, Eq)]
pub struct GenericParam {
    pub name: String,
    pub bounds: Vec<String>,
}

/// The generic parameters of a declaration, in order. Carried through to the
/// declaration unchanged.
#[derive(Debug, PartialEq, Eq)]
pub struct GenericsSignature {
    pub params: Vec<GenericParam>,
}

/// A declaration ready to be rendered: its name, its generic parameters and
/// its payload.
#[derive(Debug, PartialEq, Eq)]
pub struct TypeDeclaration {
    pub name: String,
    pub generics: GenericsSignature,
    pub shape: FieldShape,
}

/// The resolved settings of a record that this crate reads.
#[derive(Debug, PartialEq, Eq)]
pub struct StructAttr {
    /// The name to declare the record under, in place of its own.
    pub rename: Option<String>,
}

/// The declared name: the rename where one is set, else the record's own.
pub open spec fn resolved_name(attr: StructAttr, ident: Seq<char>) -> Seq<char> {
    match attr.rename {
        Some(n) => n@,
        None => ident,
    }
}

/// The declaration of a record without fields.
pub fn unit(name: String, generics: GenericsSignature) -> (r: TypeDeclaration)
    ensures
        r.name@ == name@,
        r.generics == generics,
        r.shape@ == ShapeModel::Unit,
{
    TypeDeclaration { name, generics, shape: FieldShape::Unit }
}

/// The declaration of a record with one unlabelled field: an alias of the
/// field's erased type.
pub fn newtype(name: String, field: &TypeExpr, generics: GenericsSignature) -> (r:
    TypeDeclaration)
    ensures
        r.name@ == name@,
        r.generics == generics,
        r.shape@ == ShapeModel::Newtype(normalize(field@)),
{
    TypeDeclaration { name, generics, shape: FieldShape::Newtype(make_lifetimes_static(field)) }
}

/// The declaration of a record with unlabelled fields: the erased field types,
/// position by position.
pub fn tuple(name: String, fields: &Vec<TypeExpr>, generics: GenericsSignature) -> (r:
    TypeDeclaration)
    ensures
        r.name@ == name@,
        r.generics == generics,
        r.shape@ == ShapeModel::Tuple(normalize_all(types_model(fields@))),
{
    let mut out: Vec<TypeExpr> = Vec::new();
    let mut i: usize = 0;
    while i < fields.len()
        invariant
            i <= fields@.len(),
            out@.len() == i,
            forall|j: int| 0 <= j < i ==> (#[trigger] out@[j])@ == normalize(fields@[j]@),
        decreases fields@.len() - i,
    {
        out.push(make_lifetimes_static(&fields[i]));
        i += 1;
    }
    assert(types_model(out@) =~= normalize_all(types_model(fields@)));
    TypeDeclaration { name, generics, shape: FieldShape::Tuple(out) }
}

/// The declaration of a record with labelled fields: names kept verbatim and
/// in order, types erased.
pub fn named(name: String, fields: &Vec<NamedField>, generics: GenericsSignature) -> (r:
    TypeDeclaration)
    ensures
        r.name@ == name@,
        r.generics == generics,
        r.shape@ == ShapeModel::Named(erase_named(fields@)),
{
    let mut out: Vec<NamedField> = Vec::new();
    let mut i: usize = 0;
    while i < fields.len()
        invariant
            i <= fields@.len(),
            out@.len() == i,
            forall|j: int|
                0 <= j < i ==> (#[trigger] out@[j])@ == (
                fields@[j].name@,
                normalize(fields@[j].ty@),
            ),
        decreases fields@.len() - i,
    {
        let f = &fields[i];
        out.push(NamedField { name: f.name.clone(), ty: make_lifetimes_static(&f.ty) });
        i += 1;
    }
    assert(out@.map_values(|f: NamedField| f@) =~= erase_named(fields@));
    TypeDeclaration { name, generics, shape: FieldShape::Named(out) }
}

fn resolve_name(attr: &StructAttr, ident: &String) -> (r: String)
    ensures
        r@ == resolved_name(*attr, ident@),
{
    match &attr.rename {
        Some(n) => n.clone(),
        None => ident.clone(),
    }
}

/// Builds the declaration of a record named `ident` (as written in the target
/// notation) with the given settings, fields and generic parameters.
pub fn type_def(attr: &StructAttr, ident: &String, fields: &Fields, generics: GenericsSignature) -> (r:
    TypeDeclaration)
    ensures
        r.name@ == resolved_name(*attr, ident@),
        r.generics == generics,
        r.shape@ == declared_shape(*fields),
{
    let name = resolve_name(attr, ident);
    match fields {
        Fields::Named(v) => if v.len() == 0 {
            unit(name, generics)
        } else {
            named(name, v, generics)
        },
        Fields::Unnamed(v) => if v.len() == 0 {
            unit(name, generics)
        } else if v.len() == 1 {
            newtype(name, &v[0], generics)
        } else {
            tuple(name, v, generics)
        },
        Fields::Unit => unit(name, generics),
    }
}

/// The declared payload has the shape that [`classify`] picks.
pub proof fn lemma_declared_shape_is_classified(f: Fields)
    ensures
        kind_of(declared_shape(f)) == shape_of(f),
{
}

/// Fields keep their declared order: a labelled declaration lists the field
/// names exactly as the input does, and a tuple declaration holds at each
/// position the erased type of the input's field at that position.
pub proof fn lemma_field_order_kept(f: Fields)
    ensures
        match f {
            Fields::Named(v) => v@.len() > 0 ==> {
                &&& declared_shape(f) is Named
                &&& declared_shape(f)->Named_0.map_values(|p: (Seq<char>, TypeModel)| p.0)
                    == v@.map_values(|n: NamedField| n.name@)
            },
            Fields::Unnamed(v) => v@.len() > 1 ==> {
                &&& declared_shape(f) is Tuple
                &&& declared_shape(f)->Tuple_0.len() == v@.len()
                &&& forall|i: int|
                    0 <= i < v@.len() ==> #[trigger] declared_shape(f)->Tuple_0[i] == normalize(
                        v@[i]@,
                    )
            },
            Fields::Unit => true,
        },
{
    match f {
        Fields::Named(v) => {
            let s = erase_named(v@);
            assert(s.map_values(|p: (Seq<char>, TypeModel)| p.0) =~= v@.map_values(
                |n: NamedField| n.name@,
            ));
        },
        _ => {},
    }
}

/// One field of a list whose labelling is not yet known.
#[derive(Debug, PartialEq, Eq)]
pub struct Field {
    pub label: Option<String>,
    pub ty: TypeExpr,
}

/// Why a field list was refused.
#[derive(PartialEq, Eq, Structural, Clone, Copy, Debug)]
pub enum FieldListError {
    /// Some fields are labelled and some are not.
    MixedLabels,
}

pub open spec fn all_labelled(s: Seq<Field>) -> bool {
    forall|i: int| 0 <= i < s.len() ==> (#[trigger] s[i]).label is Some
}

pub open spec fn none_labelled(s: Seq<Field>) -> bool {
    forall|i: int| 0 <= i < s.len() ==> (#[trigger] s[i]).label is None
}

/// Sorts a list of fields into labelled or unlabelled form. An empty list
/// gives `Fields::Unit`; a list that mixes labelled and unlabelled fields is
/// refused.
pub fn fields_from_list(list: Vec<Field>) -> (r: Result<Fields, FieldListError>)
    ensures
        list@.len() == 0 ==> r matches Ok(Fields::Unit),
        list@.len() > 0 && all_labelled(list@) ==> r matches Ok(Fields::Named(_)),
        list@.len() > 0 && none_labelled(list@) ==> r matches Ok(Fields::Unnamed(_)),
        match r {
            Ok(Fields::Named(v)) => {
                &&& v@.len() == list@.len()
                &&& forall|i: int|
                    0 <= i < v@.len() ==> (#[trigger] v@[i]).name == list@[i].label->Some_0
                        && v@[i].ty == list@[i].ty
            },
            Ok(Fields::Unnamed(v)) => v@ == list@.map_values(|f: Field| f.ty),
            _ => true,
        },
        r is Err <==> !all_labelled(list@) && !none_labelled(list@),
{
    if list.len() == 0 {
        return Ok(Fields::Unit);
    }
    let first = list[0].label.is_some();
    let mut i: usize = 1;
    while i < list.len()
        invariant
            1 <= i <= list@.len(),
            first == list@[0].label is Some,
            forall|j: int| 0 <= j < i ==> (#[trigger] list@[j]).label is Some == first,
        decreases list@.len() - i,
    {
        if list[i].label.is_some() != first {
            proof {
                if first {
                    assert(!(list@[i as int].label is Some));
                } else {
                    assert(list@[i as int].label is Some);
                }
            }
            return Err(FieldListError::MixedLabels);
        }
        i += 1;
    }
    if first {
        let ghost orig = list@;
        let mut rest = list;
        let mut out: Vec<NamedField> = Vec::new();
        while rest.len() > 0
            invariant
                all_labelled(orig),
                out@.len() + rest@.len() == orig.len(),
                rest@ == orig.subrange(out@.len() as int, orig.len() as int),
                forall|j: int|
                    0 <= j < out@.len() ==> (#[trigger] out@[j]).name == orig[j].label->Some_0
                        && out@[j].ty == orig[j].ty,
            decreases rest@.len(),
        {
            let f = rest.remove(0);
            assert(f == orig[out@.len() as int]);
            match f.label {
                Some(name) => out.push(NamedField { name, ty: f.ty }),
                None => {},
            }
            assert(rest@ =~= orig.subrange(out@.len() as int, orig.len() as int));
        }
        Ok(Fields::Named(out))
    } else {
        let ghost orig = list@;
        let mut rest = list;
        let mut out: Vec<TypeExpr> = Vec::new();
        while rest.len() > 0
            invariant
                out@.len() + rest@.len() == orig.len(),
                rest@ == orig.subrange(out@.len() as int, orig.len() as int),
                out@ == orig.subrange(0, out@.len() as int).map_values(|f: Field| f.ty),
            decreases rest@.len(),
        {
            let f = rest.remove(0);
            out.push(f.ty);
            assert(rest@ =~= orig.subrange(out@.len() as int, orig.len() as int));
            assert(out@ =~= orig.subrange(0, out@.len() as int).map_values(|f: Field| f.ty));
        }
        assert(orig.subrange(0, orig.len() as int) =~= orig);
        Ok(Fields::Unnamed(out))
    }
}

} // verus!
