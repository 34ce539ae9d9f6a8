//! Greedy string parsing for sum types.
//!
//! A sum type whose variants each wrap exactly one inner value can be parsed
//! from a string by trying each variant's inner parser in declaration order
//! and keeping the first success. This crate provides the pieces of that
//! mechanism: a model of such a type declaration ([`decl`]), a generator that
//! turns the declaration into the source text of a parsing routine
//! ([`codegen`]), the first-match selection policy that the generated routine
//! follows at run time ([`select`]), and the error value returned when no
//! variant matches ([`ParseError`]).
use vstd::prelude::*;

pub mod codegen;
pub mod decl;
pub mod select;

verus! {

/// The diagnostic message for a failed parse: a fixed prefix, the input that
/// failed, and a closing quote.
pub open spec fn message_of(span: Seq<char>) -> Seq<char> {
    "No valid variant found for string: '"@ + span + "'"@
}

/// Error returned when an input string matches none of a sum type's variants.
#[derive(Debug)]
pub struct ParseError {
    /// The original input string, kept unchanged for diagnostics.
    pub span: String,
}

impl ParseError {
    /// Wraps the failing input string.
    pub fn new(span: String) -> (e: ParseError)
        ensures
            e.span@ == span@,
    {
        ParseError { span }
    }

    /// The human-readable message:
    /// `No valid variant found for string: '<span>'`.
    pub fn message(&self) -> (m: String)
        ensures
            m@ == message_of(self.span@),
    {
        let mut m = String::new();
        m.append("No valid variant found for string: '");
        m.append(self.span.as_str());
        m.append("'");
        proof {
            assert(m@ =~= message_of(self.span@));
        }
        m
    }
}

/// Formatting the message is idempotent: any two messages formatted from the
/// same error are identical character for character.
pub proof fn lemma_message_idempotent(e: &ParseError, m1: Seq<char>, m2: Seq<char>)
    requires
        m1 == message_of(e.span@),
        m2 == message_of(e.span@),
    ensures
        m1 == m2,
{
}

} // verus!
