//! Translates contracts written in Solidity into Sway.
//!
//! The library takes the syntax tree of a Solidity source unit
//! ([`solidity`]) and builds the syntax tree of a Sway module ([`sway`]).
//! The two languages differ in how a contract is laid out: what Solidity
//! keeps as fields of a contract becomes a `storage` block, a
//! `configurable` block or constants, public state gets getters, mappings
//! and dynamic arrays become generic containers, and the types of
//! expressions have to be known to choose between them.
//!
//! * [`sway`] is the target syntax tree: its nodes, their values, equality,
//!   copies and texts.
//! * [`translate`] is the translation: scopes, the types of expressions,
//!   type names, expressions, statements, state variables, functions and
//!   contracts, and the module a definition is assembled into.
//! * [`project`] keeps the definitions translated so far, which later
//!   definitions may refer to.
//! * [`errors`] and [`messages`] are the errors that end a translation and
//!   what they say.
//!
//! Every function is verified against a contract. A contract is stated
//! over the value of a node (`node@`): strings are sequences of
//! characters and vectors are sequences of values. What a translation
//! function returns is given by a specification function of the same
//! subject, such as `translated_statement` for `translate_statement`; laws
//! that relate several functions are proof functions next to them.
//!
//! Three functions are trusted rather than verified: the comparison of
//! two string slices and the sorting of strings, both of the standard
//! library, and the conversion of an identifier to a naming convention by
//! `convert_case`.

pub mod errors;
pub mod messages;
pub mod naming;
pub mod project;
pub mod solidity;
pub mod sway;
pub mod text;
pub mod translate;
