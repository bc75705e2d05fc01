//! Lifts the variants of a sum-type declaration to standalone types that
//! inhabit a sealed kind trait.
//!
//! The host front end hands the library a [`Declaration`] made of plain
//! values (identifiers, and the token text of attributes and field types);
//! the library validates it, lifts each valid variant to a type generic over
//! its fields' kinds, decides the scope of the generated items and renders
//! the replacement declarations as source text.
pub mod arguments;
pub mod emit;
pub mod laws;
pub mod lift;
pub mod model;

pub use arguments::{ArgToken, Arguments};
pub use lift::{check_variant, lift_declaration, lift_variant, parameter_name, tylift};
pub use model::{Declaration, Error, Expansion, Fields, LiftedType, Policy, Variant};
