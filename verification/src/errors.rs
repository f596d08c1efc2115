//! Errors raised by the conversion pipeline.  Each stage fails fast with
//! the first error it detects; nothing is retried or aggregated.

use vstd::prelude::*;

verus! {

/// The input field whose shape a parsed document failed to satisfy.
#[derive(Debug, Clone, Copy, PartialEq, Eq, Structural)]
pub enum InputFault {
    ProofPiA,
    ProofPiB,
    ProofPiC,
    VkAlpha1,
    VkBeta2,
    VkGamma2,
    VkDelta2,
    VkAlphaBeta12,
    VkIc,
}

/// Everything that can go wrong between parsing and assembly.
#[derive(Debug, Clone, Copy, PartialEq, Eq, Structural)]
pub enum ConvertError {
    /// A document does not have the expected shape; the payload names
    /// the offending field.
    MalformedInput(InputFault),
    /// A count declared by the verification key disagrees with the
    /// public-input vector; carries the observed and the expected count.
    SchemaMismatch { observed: usize, expected: usize },
    /// A value that should be a decimal field element below the base
    /// prime is not.
    InvalidFieldElement,
    /// Fewer accumulator points than the target schema's six slots.
    InsufficientAccumulatorPoints { available: usize },
}

} // verus!
