//! Code generation for scalar wrapper types.
//!
//! Given a type declaration that wraps exactly one inner value, this
//! library validates the declaration's shape, emits the conversion
//! implementation between the wrapper and the generic serialized-value
//! representation, and checks the normalized result against a stored
//! snapshot baseline. Formatting of the emitted text is delegated to an
//! external formatter run by the surrounding tooling; the harness here
//! only decides, it never spawns.

pub mod decl;
pub mod emit;
pub mod harness;
pub mod normalize;
pub mod snapshot;
pub mod validate;
pub mod wrapper;
