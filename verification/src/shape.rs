//! The type shape classifier: from a field's declared type and its directive
//! parse result, decide whether the field is Required, Optional, or Repeated.
//!
//! A per-element directive is only meaningful on a collection-shaped field;
//! anywhere else it is a classification error, never silently ignored. With
//! no directive, an optional-wrapped type is Optional and everything else is
//! Required. Classification is total: every combination of directive
//! presence and declared-type shape maps to a shape or to an explicit error.

use vstd::prelude::*;
use crate::directive::{each_name, spec_each_name};
use crate::schema::FieldDesc;

verus! {

/// Why generation failed for a field.
#[derive(Clone, Copy, PartialEq, Eq, Structural, Debug)]
pub enum ErrorKind {
    /// A recognized directive list was malformed: expected `each = ...`.
    ExpectedEach,
    /// A per-element directive on a field whose declared type is not a
    /// collection with exactly one type argument.
    RepeatedOnNonCollection,
}

/// A field's classified shape. The element type is not repeated here: it is
/// the field's declared type (Required), its single type argument (Optional,
/// Repeated), as `schema::TypeExpr::spec_inner` reads it.
pub enum Shape {
    Required,
    Optional,
    Repeated { push_name: String },
}

/// The mathematical value of a `Shape`.
pub enum ShapeModel {
    Required,
    Optional,
    Repeated(Seq<char>),
}

impl View for Shape {
    type V = ShapeModel;

    open spec fn view(&self) -> ShapeModel {
        match *self {
            Shape::Required => ShapeModel::Required,
            Shape::Optional => ShapeModel::Optional,
            Shape::Repeated { ref push_name } => ShapeModel::Repeated(push_name@),
        }
    }
}

/// What classification returns for a field: a directive names the
/// per-element setter and demands a collection-shaped declared type; with no
/// directive, an optional-wrapped type is Optional, anything else Required.
pub open spec fn spec_classify(f: FieldDesc) -> Result<ShapeModel, ErrorKind> {
    match spec_each_name(f) {
        Err(_) => Err(ErrorKind::ExpectedEach),
        Ok(opt) => match opt {
            Some(n) => if f.ty.spec_is_wrapped("Vec"@) {
                Ok(ShapeModel::Repeated(n))
            } else {
                Err(ErrorKind::RepeatedOnNonCollection)
            },
            None => if f.ty.spec_is_wrapped("Option"@) {
                Ok(ShapeModel::Optional)
            } else {
                Ok(ShapeModel::Required)
            },
        },
    }
}

/// Classifies one field, exactly as `spec_classify` states.
pub fn classify(f: &FieldDesc) -> (r: Result<Shape, ErrorKind>)
    ensures
        match r {
            Ok(s) => spec_classify(*f) == Ok::<ShapeModel, ErrorKind>(s@),
            Err(e) => spec_classify(*f) == Err::<ShapeModel, ErrorKind>(e),
        },
{
    let vec_ctor: String = "Vec".to_owned();
    let option_ctor: String = "Option".to_owned();
    match each_name(f) {
        Err(_) => Err(ErrorKind::ExpectedEach),
        Ok(opt) => match opt {
            Some(n) => {
                if f.ty.inner_type(&vec_ctor).is_some() {
                    Ok(Shape::Repeated { push_name: n })
                } else {
                    Err(ErrorKind::RepeatedOnNonCollection)
                }
            },
            None => {
                if f.ty.inner_type(&option_ctor).is_some() {
                    Ok(Shape::Optional)
                } else {
                    Ok(Shape::Required)
                }
            },
        },
    }
}

} // verus!
