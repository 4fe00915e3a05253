//! Naming conventions of the target language.

use vstd::prelude::*;
use convert_case::Casing;

verus! {

/// The naming conventions that generated identifiers follow.
#[derive(Debug, Clone, Copy, PartialEq, Eq)]
pub enum Case {
    /// Lower-case words joined by underscores: variables, functions, storage fields.
    Snake,
    /// Upper-case words joined by underscores: constants and configurable fields.
    ScreamingSnake,
}

/// The identifier that `convert_case` makes of `name` in the given convention.
pub uninterp spec fn case_converted(name: Seq<char>, case: Case) -> Seq<char>;

/// Rewrites an identifier of the source language in a naming convention of
/// the target language.
///
/// Trusted: calls `convert_case::Casing::to_case`, which splits the name into
/// words at its default boundaries, changes the letter case of each word and
/// joins the words with underscores. The result depends on the name and the
/// convention alone; the contract gives it the name `case_converted` and
/// claims nothing else about it.
#[verifier::external_body]
pub(crate) fn translate_naming_convention(name: &str, case: Case) -> (r: String)
    ensures
        r@ == case_converted(name@, case),
{
    match case {
        Case::Snake => name.to_case(convert_case::Case::Snake),
        Case::ScreamingSnake => name.to_case(convert_case::Case::ScreamingSnake),
    }
}

} // verus!
