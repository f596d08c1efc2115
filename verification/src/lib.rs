//! Conversion of pairing-based proof material between two JSON schemas:
//! a source layout (nested coordinate pairs, as emitted by a proving
//! toolchain) and a target layout with renamed fields, flattened curve
//! points and extension-field elements, and the first proof point
//! pre-negated over the base field.
//!
//! The pipeline is a single pass: admit the parsed documents
//! ([`source`]), cross-check the declared counts and assemble the two
//! target structures ([`assemble`]), transcode points and negate the
//! one coordinate ([`points`], [`field`], [`decimal`]), and render the
//! results as JSON text ([`serialize`]).  Reading and writing files,
//! and decoding the input JSON, happen outside the library.

pub mod decimal;
pub mod errors;
pub mod field;
pub mod points;
pub mod source;
pub mod assemble;
pub mod serialize;
