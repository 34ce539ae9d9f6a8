//! The generator: from a sum-type declaration to the source text of a
//! greedy parsing routine.
//!
//! [`generate`] checks the declaration — it must be a sum type, and every
//! variant must wrap exactly one unnamed value — and emits the text of a
//! string-conversion impl that tries each variant's inner parser in
//! declaration order, returns the first success, and otherwise returns a
//! [`crate::ParseError`] carrying the whole input. The emitted text is
//! pinned, character for character, by [`impl_text`].
use crate::decl::{decl_ok, variant_ok, variant_ty, Fields, TypeBody, TypeDecl, Variant};
use vstd::prelude::*;

verus! {

/// The text of the parse attempt emitted for one variant of the sum type
/// `enum_name`: try the variant's inner type's parser and, on success,
/// return the variant wrapping the parsed value.
pub open spec fn arm_text(enum_name: Seq<char>, v: Variant) -> Seq<char>
    recommends
        variant_ok(v),
{
    "        if let Ok(parsed) = <"@ + variant_ty(v)
        + " as ::std::str::FromStr>::from_str(s) {\n            return Ok("@ + enum_name + "::"@
        + v.name@ + "(parsed));\n        }\n"@
}

/// The parse attempts emitted for the variants `vs`, in declaration order.
pub open spec fn arms_text(enum_name: Seq<char>, vs: Seq<Variant>) -> Seq<char>
    decreases vs.len(),
{
    if vs.len() == 0 {
        Seq::empty()
    } else {
        arm_text(enum_name, vs[0]) + arms_text(enum_name, vs.drop_first())
    }
}

/// The opening of the emitted impl: the trait header and the signature of
/// the conversion routine.
pub open spec fn impl_header(name: Seq<char>) -> Seq<char> {
    "impl ::std::str::FromStr for "@ + name
        + " {\n    type Err = ::greedy_enum::ParseError;\n\n    fn from_str(s: &str) -> Result<Self, Self::Err> {\n"@
}

/// The close of the emitted impl: when no attempt succeeded, return the
/// error carrying the original input.
pub open spec fn impl_footer() -> Seq<char> {
    "        Err(::greedy_enum::ParseError { span: s.to_string() })\n    }\n}\n"@
}

/// The whole emitted impl for an acceptable declaration: header, one parse
/// attempt per variant in declaration order, footer.
pub open spec fn impl_text(d: TypeDecl) -> Seq<char>
    recommends
        decl_ok(d),
{
    impl_header(d.name@) + arms_text(d.name@, d.body->Enum_0@) + impl_footer()
}

/// Why the generator rejected a declaration.
#[derive(Debug)]
pub enum GenError {
    /// The declaration is not a sum type.
    NotAnEnum,
    /// Some variant does not wrap exactly one unnamed value.
    BadVariant,
}

/// The message reported for a rejected declaration.
pub open spec fn gen_error_message(e: GenError) -> Seq<char> {
    match e {
        GenError::NotAnEnum => "FromStr can only be implemented for enum"@,
        GenError::BadVariant => "FromStr can only be implemented for enums with exactly one unnamed field per variant"@,
    }
}

impl GenError {
    /// The human-readable description of the rejection.
    pub fn message(&self) -> (m: String)
        ensures
            m@ == gen_error_message(*self),
    {
        match self {
            GenError::NotAnEnum => "FromStr can only be implemented for enum".to_owned(),
            GenError::BadVariant => "FromStr can only be implemented for enums with exactly one unnamed field per variant".to_owned(),
        }
    }
}

/// Emitting the attempts one variant at a time agrees with [`arms_text`]:
/// the text for `vs` with `v` appended is the text for `vs` followed by the
/// arm for `v`.
proof fn lemma_arms_text_push(enum_name: Seq<char>, vs: Seq<Variant>, v: Variant)
    ensures
        arms_text(enum_name, vs.push(v)) == arms_text(enum_name, vs) + arm_text(enum_name, v),
    decreases vs.len(),
{
    if vs.len() == 0 {
        assert(vs.push(v).drop_first() =~= vs);
        assert(arms_text(enum_name, vs.push(v)) =~= arms_text(enum_name, vs) + arm_text(
            enum_name,
            v,
        ));
    } else {
        assert(vs.push(v).drop_first() =~= vs.drop_first().push(v));
        lemma_arms_text_push(enum_name, vs.drop_first(), v);
        assert(arms_text(enum_name, vs.push(v)) =~= arms_text(enum_name, vs) + arm_text(
            enum_name,
            v,
        ));
    }
}

/// Checks the declaration and emits the conversion impl.
///
/// Succeeds exactly on acceptable declarations — a sum type whose variants
/// each wrap exactly one unnamed value — and then returns precisely the
/// text of [`impl_text`]. A declaration that is not a sum type is rejected
/// as [`GenError::NotAnEnum`]; a sum type with an unacceptable variant is
/// rejected as [`GenError::BadVariant`].
#[verifier::loop_isolation(false)]
pub fn generate(d: &TypeDecl) -> (r: Result<String, GenError>)
    ensures
        r is Ok <==> decl_ok(*d),
        r matches Ok(code) ==> code@ == impl_text(*d),
        r matches Err(e) ==> (e is NotAnEnum <==> !(d.body is Enum)),
{
    match &d.body {
        TypeBody::Enum(vs) => {
            let mut code = String::new();
            code.append("impl ::std::str::FromStr for ");
            code.append(d.name.as_str());
            code.append(
                " {\n    type Err = ::greedy_enum::ParseError;\n\n    fn from_str(s: &str) -> Result<Self, Self::Err> {\n",
            );
            proof {
                assert(code@ =~= impl_header(d.name@));
            }
            let mut i: usize = 0;
            while i < vs.len()
                invariant
                    0 <= i <= vs@.len(),
                    forall|j: int| 0 <= j < i ==> variant_ok(#[trigger] vs@[j]),
                    code@ == impl_header(d.name@) + arms_text(d.name@, vs@.take(i as int)),
                decreases vs@.len() - i,
            {
                let v = &vs[i];
                match &v.fields {
                    Fields::Unnamed(tys) => {
                        if tys.len() == 1 {
                            code.append("        if let Ok(parsed) = <");
                            code.append(tys[0].as_str());
                            code.append(
                                " as ::std::str::FromStr>::from_str(s) {\n            return Ok(",
                            );
                            code.append(d.name.as_str());
                            code.append("::");
                            code.append(v.name.as_str());
                            code.append("(parsed));\n        }\n");
                            proof {
                                lemma_arms_text_push(d.name@, vs@.take(i as int), vs@[i as int]);
                                assert(vs@.take(i + 1) =~= vs@.take(i as int).push(vs@[i as int]));
                                assert(code@ =~= impl_header(d.name@) + arms_text(
                                    d.name@,
                                    vs@.take(i + 1),
                                ));
                            }
                        } else {
                            return Err(GenError::BadVariant);
                        }
                    },
                    Fields::Named => {
                        return Err(GenError::BadVariant);
                    },
                    Fields::Unit => {
                        return Err(GenError::BadVariant);
                    },
                }
                i += 1;
            }
            proof {
                assert(vs@.take(vs@.len() as int) =~= vs@);
            }
            code.append("        Err(::greedy_enum::ParseError { span: s.to_string() })\n    }\n}\n");
            proof {
                assert(code@ =~= impl_text(*d));
            }
            Ok(code)
        },
        TypeBody::Struct => Err(GenError::NotAnEnum),
        TypeBody::Union => Err(GenError::NotAnEnum),
    }
}

} // verus!
