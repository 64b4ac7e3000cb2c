use vstd::prelude::*;

use crate::decl::Shape;
use crate::decl::TypeDeclaration;

verus! {

/// Why a declaration is not eligible for scalar-wrapper treatment.
#[derive(Clone, Copy, PartialEq, Eq, Structural, Debug)]
pub enum Reason {
    /// The declaration is an enum or a union, not a record.
    NotARecord,
    /// The declaration has one or more generic parameters.
    GenericsUnsupported,
    /// The declaration has the given number of fields instead of one.
    WrongFieldCount(usize),
}

/// The validator's verdict on one declaration: either the wrapper's
/// declared name together with the type reference of its single field,
/// or the first rejection reason in rule order.
#[derive(Clone, PartialEq, Eq, Debug)]
pub enum ValidationResult {
    Eligible(String, String),
    Rejected(Reason),
}

/// A declaration is eligible exactly when it is a record with exactly
/// one field and no generic parameters.
pub open spec fn is_eligible(decl: TypeDeclaration) -> bool {
    &&& decl.shape is Record
    &&& decl.generics@.len() == 0
    &&& decl.fields@.len() == 1
}

/// The rejection reason for a non-eligible declaration; the rules are
/// checked in order and the first failure wins.
pub open spec fn rejection(decl: TypeDeclaration) -> Reason
    recommends
        !is_eligible(decl),
{
    if !(decl.shape is Record) {
        Reason::NotARecord
    } else if decl.generics@.len() != 0 {
        Reason::GenericsUnsupported
    } else {
        Reason::WrongFieldCount(decl.fields@.len() as usize)
    }
}

/// Decides whether a declaration may receive the scalar-wrapper
/// conversion implementation. Eligible declarations yield the wrapper's
/// name and the type reference of its single field; every other shape
/// yields the first applicable rejection reason. Pure: no side effects.
pub fn validate(decl: &TypeDeclaration) -> (r: ValidationResult)
    ensures
        is_eligible(*decl) ==> (r matches ValidationResult::Eligible(name, inner)
            && name@ == decl.name@
            && inner@ == decl.fields@[0].ty@),
        !is_eligible(*decl) ==> r == ValidationResult::Rejected(rejection(*decl)),
{
    match decl.shape {
        Shape::Enum => ValidationResult::Rejected(Reason::NotARecord),
        Shape::Union => ValidationResult::Rejected(Reason::NotARecord),
        Shape::Record => {
            if decl.generics.len() != 0 {
                ValidationResult::Rejected(Reason::GenericsUnsupported)
            } else if decl.fields.len() != 1 {
                ValidationResult::Rejected(Reason::WrongFieldCount(decl.fields.len()))
            } else {
                ValidationResult::Eligible(decl.name.clone(), decl.fields[0].ty.clone())
            }
        },
    }
}

} // verus!
