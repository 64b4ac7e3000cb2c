use vstd::prelude::*;

verus! {

/// The shape of a user-supplied type declaration.
#[derive(Clone, Copy, PartialEq, Eq, Structural, Debug)]
pub enum Shape {
    /// A single-variant record with fields (named or positional).
    Record,
    /// A sum type with variants.
    Enum,
    /// An untagged overlay of fields.
    Union,
}

/// One field of a declaration: an optional field name and the textual
/// reference to the field's type.
#[derive(Clone, Debug)]
pub struct Field {
    pub name: Option<String>,
    pub ty: String,
}

/// A type declaration as handed over by the surrounding tooling: the
/// declared name, its shape, its ordered fields, and the names of its
/// declared generic parameters.
#[derive(Clone, Debug)]
pub struct TypeDeclaration {
    pub name: String,
    pub shape: Shape,
    pub fields: Vec<Field>,
    pub generics: Vec<String>,
}

} // verus!
