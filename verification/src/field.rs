//! A small record with the definitions generation splices next to it: a
//! builder type holding one optional-wrapped slot per required field, the
//! factory on the record type, the chaining setters, and the validating
//! finalizer. Both fields are Required, so each slot starts absent, each
//! setter stores its value wrapped present, and `build` moves both values
//! out, failing on the first absent one in declaration order.

use vstd::prelude::*;
use crate::builder::ConstructionError;

verus! {

/// The record itself.
#[derive(Clone, Copy, PartialEq, Eq, Debug)]
pub struct Field {
    pub name: &'static str,
    pub bitmask: u16,
}

/// The builder for `Field`: one optional-wrapped slot per field; presence
/// encodes whether the caller has set the field yet.
pub struct FieldBuilder {
    pub name: Option<&'static str>,
    pub bitmask: Option<u16>,
}

impl Field {
    /// The factory: a builder with every slot absent.
    pub fn builder() -> (b: FieldBuilder)
        ensures
            b.name is None,
            b.bitmask is None,
    {
        FieldBuilder { name: None, bitmask: None }
    }
}

impl FieldBuilder {
    /// Overwrites the `name` slot and hands the builder back for chaining.
    pub fn set_name(self, name: &'static str) -> (r: Self)
        ensures
            r.name == Some(name),
            r.bitmask == self.bitmask,
    {
        FieldBuilder { name: Some(name), ..self }
    }

    /// Overwrites the `bitmask` slot and hands the builder back for
    /// chaining.
    pub fn set_bitmask(self, bitmask: u16) -> (r: Self)
        ensures
            r.bitmask == Some(bitmask),
            r.name == self.name,
    {
        FieldBuilder { bitmask: Some(bitmask), ..self }
    }

    /// The finalizer: moves both values out in declaration order, and fails
    /// on the first absent slot, naming it by position. Slots read before
    /// the failing one are left absent; later slots are untouched.
    pub fn build(&mut self) -> (r: Result<Field, ConstructionError>)
        ensures
            r is Ok <==> (old(self).name is Some && old(self).bitmask is Some),
            final(self).name is None,
            match r {
                Ok(f) => {
                    &&& f.name == old(self).name->0
                    &&& f.bitmask == old(self).bitmask->0
                    &&& final(self).bitmask is None
                },
                Err(e) => {
                    &&& if old(self).name is None {
                        e.field == 0 && final(self).bitmask == old(self).bitmask
                    } else {
                        e.field == 1 && final(self).bitmask is None
                    }
                },
            },
    {
        let name = match self.name.take() {
            Some(n) => n,
            None => {
                return Err(ConstructionError { field: 0 });
            },
        };
        let bitmask = match self.bitmask.take() {
            Some(b) => b,
            None => {
                return Err(ConstructionError { field: 1 });
            },
        };
        Ok(Field { name, bitmask })
    }
}

} // verus!
