//! A model of the type declaration that the generator reads.
//!
//! The generator does not inspect a compiler's own syntax tree; it works on
//! this reduced picture of a declaration, which holds exactly what the
//! generation logic looks at: the type's name, whether it is a sum type, and
//! for each variant its name and the shape of its fields.
use vstd::prelude::*;

verus! {

/// The shape of one variant's fields, as written in the declaration.
pub enum Fields {
    /// Tuple-style fields; each element is the source text of one field's
    /// type.
    Unnamed(Vec<String>),
    /// Struct-style (named) fields.
    Named,
    /// No fields at all.
    Unit,
}

/// One variant of a declared sum type.
pub struct Variant {
    /// The variant's name.
    pub name: String,
    /// The shape of the variant's fields.
    pub fields: Fields,
}

/// The body of a type declaration.
pub enum TypeBody {
    /// A sum type with the given variants, in declaration order.
    Enum(Vec<Variant>),
    /// A struct declaration.
    Struct,
    /// A union declaration.
    Union,
}

/// A type declaration, reduced to what the generator reads.
pub struct TypeDecl {
    /// The declared type's name.
    pub name: String,
    /// The declaration's body.
    pub body: TypeBody,
}

/// A variant is acceptable to the generator when it wraps exactly one
/// unnamed value.
pub open spec fn variant_ok(v: Variant) -> bool {
    v.fields matches Fields::Unnamed(tys) && tys@.len() == 1
}

/// The source text of the single field type of an acceptable variant.
pub open spec fn variant_ty(v: Variant) -> Seq<char>
    recommends
        variant_ok(v),
{
    v.fields->Unnamed_0@[0]@
}

/// A declaration is acceptable to the generator when it is a sum type and
/// every variant wraps exactly one unnamed value.
pub open spec fn decl_ok(d: TypeDecl) -> bool {
    d.body matches TypeBody::Enum(vs) && forall|i: int|
        0 <= i < vs@.len() ==> variant_ok(#[trigger] vs@[i])
}

} // verus!
