//! Shape classification of record declarations, and erasure of the borrow
//! scopes written inside their field types.
//!
//! A record is described by its field list ([`Fields`]); [`classify`] picks
//! one of four shapes from the arity and labelling of that list, and
//! [`type_def`] builds the matching [`TypeDeclaration`], each field type run
//! through [`make_lifetimes_static`] so that the declaration no longer depends
//! on the scope a value was borrowed for.

pub mod types;
pub mod normalize;
pub mod shape;

pub use types::{ArgModel, GenericArg, Scope, TypeExpr, TypeModel};
pub use normalize::make_lifetimes_static;
pub use shape::{
    classify, fields_from_list, named, newtype, tuple, type_def, unit, Field, FieldListError,
    FieldShape, Fields, GenericParam, GenericsSignature, NamedField, ShapeKind, StructAttr,
    TypeDeclaration,
};
