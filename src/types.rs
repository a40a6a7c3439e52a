//! Type expressions as they appear in field declarations, and their
//! mathematical model.

use vstd::prelude::*;

verus! {

/// A binding-time annotation on a reference or in an argument list.
#[derive(Debug, PartialEq, Eq)]
pub enum Scope {
    /// The scope that outlives every other one; the canonical marker.
    Static,
    /// An anonymous scope, written `'_`.
    Anonymous,
    /// A named scope such as `'a`, held without its leading quote.
    Named(String),
}

/// A type expression: a tree of names, references, applications of a name to
/// arguments, tuples, slices and arrays.
#[derive(Debug, PartialEq, Eq)]
pub enum TypeExpr {
    /// A primitive or a named type written without arguments (`u32`, `T`,
    /// `std::string::String`), or any other form held as its text.
    Name(String),
    /// A reference, with its scope annotation if one is written.
    Reference { scope: Option<Scope>, mutable: bool, referent: Box<TypeExpr> },
    /// A named type applied to an ordered list of arguments (`Vec<T>`).
    Apply { base: String, args: Vec<GenericArg> },
    /// A tuple of element types; the empty tuple is the unit type.
    Tuple(Vec<TypeExpr>),
    /// A slice of an element type.
    Slice(Box<TypeExpr>),
    /// An array of an element type, with its length as written.
    Array { element: Box<TypeExpr>, len: String },
}

/// One argument of a type application.
#[derive(Debug, PartialEq, Eq)]
pub enum GenericArg {
    /// A scope argument (`Cow<'a, str>`).
    Lifetime(Scope),
    /// A type argument.
    Type(TypeExpr),
    /// An associated type fixed to a type (`Item = T`).
    Binding { name: String, ty: TypeExpr },
    /// A constant or any other argument, held as its text.
    Const(String),
}

/// The mathematical value of a [`TypeExpr`]: text as character sequences,
/// lists as sequences.
pub enum TypeModel {
    Name(Seq<char>),
    Reference { scope: Option<Scope>, mutable: bool, referent: Box<TypeModel> },
    Apply { base: Seq<char>, args: Seq<ArgModel> },
    Tuple(Seq<TypeModel>),
    Slice(Box<TypeModel>),
    Array { element: Box<TypeModel>, len: Seq<char> },
}

/// The mathematical value of a [`GenericArg`].
pub enum ArgModel {
    Lifetime(Scope),
    Type(TypeModel),
    Binding { name: Seq<char>, ty: TypeModel },
    Const(Seq<char>),
}

pub open spec fn type_model(t: TypeExpr) -> TypeModel
    decreases t,
{
    match t {
        TypeExpr::Name(n) => TypeModel::Name(n@),
        TypeExpr::Reference { scope, mutable, referent } => TypeModel::Reference {
            scope,
            mutable,
            referent: Box::new(type_model(*referent)),
        },
        TypeExpr::Apply { base, args } => TypeModel::Apply { base: base@, args: args_model(args@) },
        TypeExpr::Tuple(elems) => TypeModel::Tuple(types_model(elems@)),
        TypeExpr::Slice(element) => TypeModel::Slice(Box::new(type_model(*element))),
        TypeExpr::Array { element, len } => TypeModel::Array {
            element: Box::new(type_model(*element)),
            len: len@,
        },
    }
}

pub open spec fn arg_model(a: GenericArg) -> ArgModel
    decreases a,
{
    match a {
        GenericArg::Lifetime(s) => ArgModel::Lifetime(s),
        GenericArg::Type(t) => ArgModel::Type(type_model(t)),
        GenericArg::Binding { name, ty } => ArgModel::Binding { name: name@, ty: type_model(ty) },
        GenericArg::Const(c) => ArgModel::Const(c@),
    }
}

pub open spec fn args_model(s: Seq<GenericArg>) -> Seq<ArgModel>
    decreases s,
{
    Seq::new(
        s.len(),
        |i: int|
            if 0 <= i < s.len() {
                arg_model(s[i])
            } else {
                ArgModel::Const(Seq::empty())
            },
    )
}

pub open spec fn types_model(s: Seq<TypeExpr>) -> Seq<TypeModel>
    decreases s,
{
    Seq::new(
        s.len(),
        |i: int|
            if 0 <= i < s.len() {
                type_model(s[i])
            } else {
                TypeModel::Name(Seq::empty())
            },
    )
}

impl View for TypeExpr {
    type V = TypeModel;

    open spec fn view(&self) -> TypeModel {
        type_model(*self)
    }
}

impl View for GenericArg {
    type V = ArgModel;

    open spec fn view(&self) -> ArgModel {
        arg_model(*self)
    }
}

} // verus!
