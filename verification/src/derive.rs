//! What deriving `Walk` for a type produces: the `walk` of a struct walks each of its fields
//! in order, and every type parameter is bound by `Walk`.

use vstd::prelude::*;

verus! {

/// The fields of a struct.
#[derive(Debug, Clone, PartialEq, Eq)]
pub enum Fields {
    /// Fields with names, in order.
    Named(Vec<String>),
    /// As many fields as given, reached by position.
    Unnamed(usize),
    /// No fields.
    Unit,
}

/// The kind of type a derive is asked for.
#[derive(Debug, Clone, PartialEq, Eq)]
pub enum DataKind {
    Struct(Fields),
    Enum,
    Union,
}

/// A field that a derived `walk` walks: `self.name` or `self.0`.
#[derive(Debug, Clone, PartialEq, Eq)]
pub enum FieldAccess {
    Named(String),
    Index(usize),
}

/// A generic parameter of the type.
#[derive(Debug, Clone, PartialEq, Eq)]
pub enum GenericParam {
    /// A type parameter with its bounds, in order.
    Type { name: String, bounds: Vec<String> },
    /// A lifetime parameter.
    Lifetime(String),
    /// A constant parameter.
    Const(String),
}

/// The impl a derive writes: `impl<generics> Walk for self_name<..> where ..`, whose
/// `walk` walks the fields listed, in order.
#[derive(Debug, Clone, PartialEq, Eq)]
pub struct WalkImpl {
    pub self_name: String,
    pub generics: Vec<GenericParam>,
    pub where_predicates: Vec<String>,
    pub walked: Vec<FieldAccess>,
}

/// `walked` lists every field of the struct `data`, in order.
pub open spec fn walks_every_field(data: DataKind, walked: Seq<FieldAccess>) -> bool {
    match data {
        DataKind::Struct(Fields::Named(names)) => walked.len() == names@.len() && forall|i: int|
            0 <= i < names@.len() ==> #[trigger] walked[i] == FieldAccess::Named(names@[i]),
        DataKind::Struct(Fields::Unnamed(n)) => walked.len() == n && forall|i: int|
            0 <= i < n ==> #[trigger] walked[i] == FieldAccess::Index(i as usize),
        _ => walked.len() == 0,
    }
}

/// `param` with `Walk` added to its bounds when it is a type parameter.
pub open spec fn bound_by_walk(param: GenericParam, bounded: GenericParam) -> bool {
    match param {
        GenericParam::Type { name, bounds } => match bounded {
            GenericParam::Type { name: new_name, bounds: new_bounds } => {
                &&& new_name == name
                &&& new_bounds@.len() == bounds@.len() + 1
                &&& new_bounds@.subrange(0, bounds@.len() as int) == bounds@
                &&& new_bounds@.last()@ == "Walk"@
            },
            _ => false,
        },
        _ => bounded == param,
    }
}

/// `bounded` is `params`, each bound by `Walk` as `bound_by_walk` says.
pub open spec fn all_bound_by_walk(params: Seq<GenericParam>, bounded: Seq<GenericParam>) -> bool {
    bounded.len() == params.len() && forall|i: int|
        0 <= i < params.len() ==> bound_by_walk(#[trigger] params[i], bounded[i])
}

/// The fields a derived `walk` walks, in order: every field of the struct.
/// Enums and unions are not supported (the derive stops there).
pub fn dump_fields(data: DataKind) -> (r: Vec<FieldAccess>)
    requires
        data is Struct,
    ensures
        walks_every_field(data, r@),
{
    let mut r: Vec<FieldAccess> = Vec::new();
    match data {
        DataKind::Struct(Fields::Named(names)) => {
            let ghost all = names@;
            let mut rest = names;
            while rest.len() > 0
                invariant
                    r@.len() + rest@.len() == all.len(),
                    rest@ == all.subrange(r@.len() as int, all.len() as int),
                    forall|i: int| 0 <= i < r@.len() ==> #[trigger] r@[i] == FieldAccess::Named(all[i]),
                decreases rest@.len(),
            {
                let name = rest.remove(0);
                r.push(FieldAccess::Named(name));
            }
        },
        DataKind::Struct(Fields::Unnamed(n)) => {
            let mut i: usize = 0;
            while i < n
                invariant
                    i <= n,
                    r@.len() == i,
                    forall|k: int| 0 <= k < i ==> #[trigger] r@[k] == FieldAccess::Index(k as usize),
                decreases n - i,
            {
                r.push(FieldAccess::Index(i));
                i = i + 1;
            }
        },
        _ => {},
    }
    r
}

/// The generic parameters of a derived impl: each type parameter gains the bound `Walk`
/// after its own bounds; lifetimes and constants are kept as they are.
pub fn add_trait_bounds(params: Vec<GenericParam>) -> (r: Vec<GenericParam>)
    ensures
        all_bound_by_walk(params@, r@),
{
    let ghost all = params@;
    let mut rest = params;
    let mut r: Vec<GenericParam> = Vec::new();
    while rest.len() > 0
        invariant
            r@.len() + rest@.len() == all.len(),
            rest@ == all.subrange(r@.len() as int, all.len() as int),
            forall|i: int| 0 <= i < r@.len() ==> bound_by_walk(#[trigger] all[i], r@[i]),
        decreases rest@.len(),
    {
        let param = rest.remove(0);
        match param {
            GenericParam::Type { name, bounds } => {
                let ghost old_bounds = bounds@;
                let mut bounds = bounds;
                bounds.push("Walk".to_owned());
                assert(bounds@.subrange(0, old_bounds.len() as int) =~= old_bounds);
                r.push(GenericParam::Type { name, bounds });
            },
            other => {
                r.push(other);
            },
        }
    }
    r
}

/// What deriving `Walk` for the type `self_name` with these generic parameters, this
/// where clause and this data produces: the parameters bound by `Walk`, the where clause
/// as it is, and a walk of every field. Enums and unions are not supported.
pub fn derive_dump(
    self_name: String,
    generics: Vec<GenericParam>,
    where_predicates: Vec<String>,
    data: DataKind,
) -> (r: WalkImpl)
    requires
        data is Struct,
    ensures
        r.self_name == self_name,
        r.where_predicates == where_predicates,
        all_bound_by_walk(generics@, r.generics@),
        walks_every_field(data, r.walked@),
{
    let generics = add_trait_bounds(generics);
    let walked = dump_fields(data);
    WalkImpl { self_name, generics, where_predicates, walked }
}

} // verus!
