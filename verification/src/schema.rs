//! The schema a generation invocation consumes: one field descriptor per
//! field of the record, in declaration order.

use vstd::prelude::*;

verus! {

/// A field's declared type, reduced to what classification reads: the last
/// path segment's identifier and the angle-bracketed type arguments.
/// Anything that is not a plain path type (a reference, a tuple, ...) is
/// `Opaque`; such a type is never optional- or collection-shaped.
pub enum TypeExpr {
    Apply { ctor: String, args: Vec<TypeExpr> },
    Opaque,
}

impl TypeExpr {
    /// True when the outer type constructor is `ctor` applied to exactly one
    /// type argument.
    pub open spec fn spec_is_wrapped(&self, ctor: Seq<char>) -> bool {
        match *self {
            TypeExpr::Apply { ctor: ref c, ref args } => c@ == ctor && args@.len() == 1,
            TypeExpr::Opaque => false,
        }
    }

    /// The single type argument of a wrapped type.
    pub open spec fn spec_inner(&self) -> TypeExpr {
        match *self {
            TypeExpr::Apply { ctor: _, ref args } => args@[0],
            TypeExpr::Opaque => TypeExpr::Opaque,
        }
    }

    /// Extracts the inner type when the outer constructor is `ctor` with
    /// exactly one argument.
    pub fn inner_type(&self, ctor: &String) -> (r: Option<&TypeExpr>)
        ensures
            match r {
                Some(inner) => self.spec_is_wrapped(ctor@) && *inner == self.spec_inner(),
                None => !self.spec_is_wrapped(ctor@),
            },
    {
        match self {
            TypeExpr::Apply { ctor: c, args } => {
                if *c == *ctor && args.len() == 1 {
                    Some(&args[0])
                } else {
                    None
                }
            },
            TypeExpr::Opaque => None,
        }
    }
}

/// The value of a `key = value` directive entry.
pub enum MetaValue {
    StrValue(String),
    OtherValue,
}

/// One entry of a directive list: a `key = value` pair, or anything else
/// (a bare path, a nested list, a non-pair literal).
pub enum MetaEntry {
    KeyValue { key: String, value: MetaValue },
    OtherEntry,
}

/// One annotation list attached to a field: a keyword and its entries,
/// for instance the keyword `builder` with the single entry `each = "item"`.
pub struct DirectiveList {
    pub keyword: String,
    pub entries: Vec<MetaEntry>,
}

/// One field of the record: name, declared type, and annotation lists, in
/// the order they stand in the source.
pub struct FieldDesc {
    pub name: String,
    pub ty: TypeExpr,
    pub directives: Vec<DirectiveList>,
}

/// The ordered description of a record type's fields, read once per
/// generation invocation.
pub struct RecordSchema {
    pub name: String,
    pub fields: Vec<FieldDesc>,
}

impl RecordSchema {
    /// Field names are unique within a schema.
    pub open spec fn wf(&self) -> bool {
        forall|i: int, j: int|
            0 <= i < j < self.fields@.len() ==> self.fields@[i].name@ != self.fields@[j].name@
    }
}

} // verus!
