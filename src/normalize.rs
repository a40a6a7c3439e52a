//! Erasure of binding-time annotations: every scope written in a type
//! expression becomes [`Scope::Static`], and nothing else changes.

use vstd::prelude::*;
use crate::types::{arg_model, args_model, type_model, types_model, ArgModel, GenericArg, Scope, TypeExpr, TypeModel};

verus! {

/// The scope a reference carries once erased: the canonical marker where a
/// scope was written, nothing where none was.
pub open spec fn erase_scope(s: Option<Scope>) -> Option<Scope> {
    match s {
        Some(_) => Some(Scope::Static),
        None => None,
    }
}

/// `t` with every scope annotation, at any depth, replaced by the canonical
/// marker.
pub open spec fn normalize(t: TypeModel) -> TypeModel
    decreases t,
{
    match t {
        TypeModel::Name(n) => TypeModel::Name(n),
        TypeModel::Reference { scope, mutable, referent } => TypeModel::Reference {
            scope: erase_scope(scope),
            mutable,
            referent: Box::new(normalize(*referent)),
        },
        TypeModel::Apply { base, args } => TypeModel::Apply { base, args: normalize_args(args) },
        TypeModel::Tuple(elems) => TypeModel::Tuple(normalize_all(elems)),
        TypeModel::Slice(element) => TypeModel::Slice(Box::new(normalize(*element))),
        TypeModel::Array { element, len } => TypeModel::Array {
            element: Box::new(normalize(*element)),
            len,
        },
    }
}

pub open spec fn normalize_arg(a: ArgModel) -> ArgModel
    decreases a,
{
    match a {
        ArgModel::Lifetime(_) => ArgModel::Lifetime(Scope::Static),
        ArgModel::Type(t) => ArgModel::Type(normalize(t)),
        ArgModel::Binding { name, ty } => ArgModel::Binding { name, ty: normalize(ty) },
        ArgModel::Const(c) => ArgModel::Const(c),
    }
}

pub open spec fn normalize_args(s: Seq<ArgModel>) -> Seq<ArgModel>
    decreases s,
{
    Seq::new(
        s.len(),
        |i: int|
            if 0 <= i < s.len() {
                normalize_arg(s[i])
            } else {
                ArgModel::Const(Seq::empty())
            },
    )
}

pub open spec fn normalize_all(s: Seq<TypeModel>) -> Seq<TypeModel>
    decreases s,
{
    Seq::new(
        s.len(),
        |i: int|
            if 0 <= i < s.len() {
                normalize(s[i])
            } else {
                TypeModel::Name(Seq::empty())
            },
    )
}

fn erased_scope(s: &Option<Scope>) -> (r: Option<Scope>)
    ensures
        r == erase_scope(*s),
{
    match s {
        Some(_) => Some(Scope::Static),
        None => None,
    }
}

/// Returns a copy of `ty` in which every scope annotation, on a reference or
/// among the arguments of an application, at any depth, is the canonical
/// marker `Scope::Static`. All other structure is kept.
pub fn make_lifetimes_static(ty: &TypeExpr) -> (r: TypeExpr)
    ensures
        r@ == normalize(ty@),
    decreases ty,
{
    match ty {
        TypeExpr::Name(n) => TypeExpr::Name(n.clone()),
        TypeExpr::Reference { scope, mutable, referent } => {
            let inner = make_lifetimes_static(referent);
            TypeExpr::Reference {
                scope: erased_scope(scope),
                mutable: *mutable,
                referent: Box::new(inner),
            }
        },
        TypeExpr::Apply { base, args } => {
            let mut out: Vec<GenericArg> = Vec::new();
            let mut i: usize = 0;
            assert forall|k: int| 0 <= k < args@.len() implies decreases_to!(*ty => args@[k]) by {
                assert(decreases_to!(*ty => (*ty)->args));
                assert(decreases_to!(*args => args@));
                assert(decreases_to!(args@ => args@[k]));
            }
            while i < args.len()
                invariant
                    forall|k: int| 0 <= k < args@.len() ==> decreases_to!(*ty => #[trigger] args@[k]),
                    i <= args@.len(),
                    out@.len() == i,
                    forall|j: int| 0 <= j < i ==> (#[trigger] out@[j])@ == normalize_arg(args@[j]@),
                decreases args@.len() - i,
            {
                let a = erase_arg(&args[i]);
                out.push(a);
                i += 1;
            }
            assert(args_model(out@) =~= normalize_args(args_model(args@)));
            TypeExpr::Apply { base: base.clone(), args: out }
        },
        TypeExpr::Tuple(elems) => {
            let mut out: Vec<TypeExpr> = Vec::new();
            let mut i: usize = 0;
            assert forall|k: int| 0 <= k < elems@.len() implies decreases_to!(*ty => elems@[k]) by {
                assert(decreases_to!(*ty => (*ty)->Tuple_0));
                assert(decreases_to!(*elems => elems@));
                assert(decreases_to!(elems@ => elems@[k]));
            }
            while i < elems.len()
                invariant
                    forall|k: int| 0 <= k < elems@.len() ==> decreases_to!(*ty => #[trigger] elems@[k]),
                    i <= elems@.len(),
                    out@.len() == i,
                    forall|j: int| 0 <= j < i ==> (#[trigger] out@[j])@ == normalize(elems@[j]@),
                decreases elems@.len() - i,
            {
                let e = make_lifetimes_static(&elems[i]);
                out.push(e);
                i += 1;
            }
            assert(types_model(out@) =~= normalize_all(types_model(elems@)));
            TypeExpr::Tuple(out)
        },
        TypeExpr::Slice(element) => TypeExpr::Slice(Box::new(make_lifetimes_static(element))),
        TypeExpr::Array { element, len } => TypeExpr::Array {
            element: Box::new(make_lifetimes_static(element)),
            len: len.clone(),
        },
    }
}

fn erase_arg(a: &GenericArg) -> (r: GenericArg)
    ensures
        r@ == normalize_arg(a@),
    decreases a,
{
    match a {
        GenericArg::Lifetime(_) => GenericArg::Lifetime(Scope::Static),
        GenericArg::Type(t) => GenericArg::Type(make_lifetimes_static(t)),
        GenericArg::Binding { name, ty } => GenericArg::Binding {
            name: name.clone(),
            ty: make_lifetimes_static(ty),
        },
        GenericArg::Const(c) => GenericArg::Const(c.clone()),
    }
}

/// Whether a reference's scope is absent or the canonical marker.
pub open spec fn scope_erased(s: Option<Scope>) -> bool {
    match s {
        None => true,
        Some(Scope::Static) => true,
        Some(_) => false,
    }
}

/// Every scope written in `t`, at any depth, is the canonical marker.
pub open spec fn scopes_erased(t: TypeModel) -> bool
    decreases t,
{
    match t {
        TypeModel::Name(_) => true,
        TypeModel::Reference { scope, mutable, referent } => scope_erased(scope) && scopes_erased(
            *referent,
        ),
        TypeModel::Apply { base, args } => forall|i: int|
            0 <= i < args.len() ==> arg_scopes_erased(#[trigger] args[i]),
        TypeModel::Tuple(elems) => forall|i: int|
            0 <= i < elems.len() ==> scopes_erased(#[trigger] elems[i]),
        TypeModel::Slice(element) => scopes_erased(*element),
        TypeModel::Array { element, len } => scopes_erased(*element),
    }
}

pub open spec fn arg_scopes_erased(a: ArgModel) -> bool
    decreases a,
{
    match a {
        ArgModel::Lifetime(s) => s matches Scope::Static,
        ArgModel::Type(t) => scopes_erased(t),
        ArgModel::Binding { name, ty } => scopes_erased(ty),
        ArgModel::Const(_) => true,
    }
}

/// `a` and `b` are the same type expression but for the scopes named where a
/// scope is written: names, qualifiers, the order and number of arguments and
/// elements agree, and a reference carries a scope in `a` exactly where it
/// carries one in `b`.
pub open spec fn same_but_scopes(a: TypeModel, b: TypeModel) -> bool
    decreases a,
{
    match a {
        TypeModel::Name(n) => b == TypeModel::Name(n),
        TypeModel::Reference { scope, mutable, referent } => {
            &&& b matches TypeModel::Reference { scope: s2, mutable: m2, referent: r2 }
            &&& scope.is_some() == s2.is_some()
            &&& mutable == m2
            &&& same_but_scopes(*referent, *r2)
        },
        TypeModel::Apply { base, args } => {
            &&& b matches TypeModel::Apply { base: b2, args: a2 }
            &&& base == b2
            &&& args.len() == a2.len()
            &&& forall|i: int| 0 <= i < args.len() ==> arg_same_but_scopes(#[trigger] args[i], a2[i])
        },
        TypeModel::Tuple(elems) => {
            &&& b matches TypeModel::Tuple(e2)
            &&& elems.len() == e2.len()
            &&& forall|i: int| 0 <= i < elems.len() ==> same_but_scopes(#[trigger] elems[i], e2[i])
        },
        TypeModel::Slice(element) => {
            &&& b matches TypeModel::Slice(e2)
            &&& same_but_scopes(*element, *e2)
        },
        TypeModel::Array { element, len } => {
            &&& b matches TypeModel::Array { element: e2, len: l2 }
            &&& len == l2
            &&& same_but_scopes(*element, *e2)
        },
    }
}

pub open spec fn arg_same_but_scopes(a: ArgModel, b: ArgModel) -> bool
    decreases a,
{
    match a {
        ArgModel::Lifetime(_) => b is Lifetime,
        ArgModel::Type(t) => b matches ArgModel::Type(t2) && same_but_scopes(t, t2),
        ArgModel::Binding { name, ty } => {
            &&& b matches ArgModel::Binding { name: n2, ty: t2 }
            &&& name == n2
            &&& same_but_scopes(ty, t2)
        },
        ArgModel::Const(c) => b == ArgModel::Const(c),
    }
}

/// After erasure no scope other than the canonical marker is left anywhere
/// in a type expression.
pub proof fn lemma_normalize_erases_scopes(t: TypeModel)
    ensures
        scopes_erased(normalize(t)),
    decreases t,
{
    match t {
        TypeModel::Reference { referent, .. } => lemma_normalize_erases_scopes(*referent),
        TypeModel::Apply { base, args } => {
            let n = normalize_args(args);
            assert forall|i: int| 0 <= i < n.len() implies arg_scopes_erased(#[trigger] n[i]) by {
                lemma_normalize_arg_erases_scopes(args[i]);
            }
            assert(scopes_erased(TypeModel::Apply { base, args: n }));
        },
        TypeModel::Tuple(elems) => {
            let n = normalize_all(elems);
            assert forall|i: int| 0 <= i < n.len() implies scopes_erased(#[trigger] n[i]) by {
                lemma_normalize_erases_scopes(elems[i]);
            }
            assert(scopes_erased(TypeModel::Tuple(n)));
        },
        TypeModel::Slice(element) => lemma_normalize_erases_scopes(*element),
        TypeModel::Array { element, .. } => lemma_normalize_erases_scopes(*element),
        TypeModel::Name(_) => {},
    }
}

pub proof fn lemma_normalize_arg_erases_scopes(a: ArgModel)
    ensures
        arg_scopes_erased(normalize_arg(a)),
    decreases a,
{
    match a {
        ArgModel::Type(t) => lemma_normalize_erases_scopes(t),
        ArgModel::Binding { ty, .. } => lemma_normalize_erases_scopes(ty),
        _ => {},
    }
}

/// Erasure changes nothing but the scopes: base names, qualifiers, the order
/// and number of arguments and elements, and the places where a scope is
/// written are those of the input.
pub proof fn lemma_normalize_keeps_structure(t: TypeModel)
    ensures
        same_but_scopes(normalize(t), t),
    decreases t,
{
    match t {
        TypeModel::Reference { referent, .. } => lemma_normalize_keeps_structure(*referent),
        TypeModel::Apply { base, args } => {
            let n = normalize_args(args);
            assert forall|i: int| 0 <= i < n.len() implies arg_same_but_scopes(
                #[trigger] n[i],
                args[i],
            ) by {
                lemma_normalize_arg_keeps_structure(args[i]);
            }
            assert(same_but_scopes(TypeModel::Apply { base, args: n }, t));
        },
        TypeModel::Tuple(elems) => {
            let n = normalize_all(elems);
            assert forall|i: int| 0 <= i < n.len() implies same_but_scopes(
                #[trigger] n[i],
                elems[i],
            ) by {
                lemma_normalize_keeps_structure(elems[i]);
            }
            assert(same_but_scopes(TypeModel::Tuple(n), t));
        },
        TypeModel::Slice(element) => lemma_normalize_keeps_structure(*element),
        TypeModel::Array { element, .. } => lemma_normalize_keeps_structure(*element),
        TypeModel::Name(_) => {},
    }
}

pub proof fn lemma_normalize_arg_keeps_structure(a: ArgModel)
    ensures
        arg_same_but_scopes(normalize_arg(a), a),
    decreases a,
{
    match a {
        ArgModel::Type(t) => lemma_normalize_keeps_structure(t),
        ArgModel::Binding { ty, .. } => lemma_normalize_keeps_structure(ty),
        _ => {},
    }
}

/// A type expression whose scopes are all the canonical marker is left as it
/// is by erasure.
pub proof fn lemma_normalize_fixes_erased(t: TypeModel)
    requires
        scopes_erased(t),
    ensures
        normalize(t) == t,
    decreases t,
{
    match t {
        TypeModel::Reference { referent, .. } => lemma_normalize_fixes_erased(*referent),
        TypeModel::Apply { args, .. } => {
            assert forall|i: int| 0 <= i < args.len() implies #[trigger] normalize_args(args)[i]
                == args[i] by {
                lemma_normalize_arg_fixes_erased(args[i]);
            }
            assert(normalize_args(args) =~= args);
        },
        TypeModel::Tuple(elems) => {
            assert forall|i: int| 0 <= i < elems.len() implies #[trigger] normalize_all(elems)[i]
                == elems[i] by {
                lemma_normalize_fixes_erased(elems[i]);
            }
            assert(normalize_all(elems) =~= elems);
        },
        TypeModel::Slice(element) => lemma_normalize_fixes_erased(*element),
        TypeModel::Array { element, .. } => lemma_normalize_fixes_erased(*element),
        TypeModel::Name(_) => {},
    }
}

pub proof fn lemma_normalize_arg_fixes_erased(a: ArgModel)
    requires
        arg_scopes_erased(a),
    ensures
        normalize_arg(a) == a,
    decreases a,
{
    match a {
        ArgModel::Type(t) => lemma_normalize_fixes_erased(t),
        ArgModel::Binding { ty, .. } => lemma_normalize_fixes_erased(ty),
        _ => {},
    }
}

/// Erasing twice gives what erasing once gives.
pub proof fn lemma_normalize_idempotent(t: TypeModel)
    ensures
        normalize(normalize(t)) == normalize(t),
{
    lemma_normalize_erases_scopes(t);
    lemma_normalize_fixes_erased(normalize(t));
}

} // verus!
