//! Proof parameters, as named configuration.

use vstd::prelude::*;

verus! {

/// Field in which the composition polynomial is built.
#[derive(Clone, Copy, Debug, PartialEq, Eq, Structural)]
pub enum FieldExtension {
    /// The base field.
    Base,
    /// Its quadratic extension.
    Quadratic,
    /// Its cubic extension.
    Cubic,
}

/// How random coefficients batch several polynomials into one.
#[derive(Clone, Copy, Debug, PartialEq, Eq, Structural)]
pub enum BatchingMethod {
    /// An independent random value per polynomial.
    Linear,
    /// Powers of one random value.
    Algebraic,
    /// Powers of one random value, applied by Horner's rule.
    Horner,
}

/// The parameters of one proof.
#[derive(Clone, Copy, Debug, PartialEq, Eq, Structural)]
pub struct ProofParameters {
    /// Number of query positions.
    pub num_queries: usize,
    /// Blow-up factor of the low-degree extension.
    pub blowup_factor: usize,
    /// Proof-of-work (grinding) bits.
    pub grinding_factor: u32,
    /// Field of the composition polynomial.
    pub field_extension: FieldExtension,
    /// Folding factor of each FRI layer.
    pub fri_folding_factor: usize,
    /// Largest degree of the FRI remainder polynomial.
    pub fri_remainder_max_degree: usize,
    /// Batching of the constraint composition.
    pub constraint_batching: BatchingMethod,
    /// Batching of the DEEP composition.
    pub deep_batching: BatchingMethod,
}

} // verus!
