//! Proof parameters: the knobs of the proving protocol, chosen once per
//! proving session and handed to the engine unchanged.

use vstd::prelude::*;

verus! {

/// Hash function used for commitments.
#[derive(Clone, Copy, Debug, PartialEq, Eq, Structural)]
pub enum HashFunction {
    /// BLAKE3 with 192-bit output.
    Blake3_192,
    /// BLAKE3 with 256-bit output.
    Blake3_256,
    /// SHA3 with 256-bit output.
    Sha3_256,
}

/// Extension of the base field over which the protocol draws its
/// randomness.
#[derive(Clone, Copy, Debug, PartialEq, Eq, Structural)]
pub enum FieldExtension {
    /// No extension: the base field itself.
    Base,
    /// The quadratic extension.
    Quadratic,
    /// The cubic extension.
    Cubic,
}

/// The parameters of one proving session.
#[derive(Clone, Copy, Debug, PartialEq, Eq, Structural)]
pub struct ProofParameters {
    /// Number of queries; statistical soundness per round.
    pub num_queries: usize,
    /// Expansion factor of the low-degree extension.
    pub blowup_factor: usize,
    /// Bits of proof-of-work added to each proof.
    pub grinding_factor: u32,
    /// Commitment hash function.
    pub hash_fn: HashFunction,
    /// Field extension mode.
    pub field_extension: FieldExtension,
    /// Compression per FRI round.
    pub fri_folding_factor: usize,
    /// Length at which FRI stops folding.
    pub fri_max_remainder_size: usize,
}

impl ProofParameters {
    /// Bundles the seven parameters.
    pub fn new(
        num_queries: usize,
        blowup_factor: usize,
        grinding_factor: u32,
        hash_fn: HashFunction,
        field_extension: FieldExtension,
        fri_folding_factor: usize,
        fri_max_remainder_size: usize,
    ) -> (parameters: ProofParameters)
        ensures
            parameters == (ProofParameters {
                num_queries,
                blowup_factor,
                grinding_factor,
                hash_fn,
                field_extension,
                fri_folding_factor,
                fri_max_remainder_size,
            }),
    {
        ProofParameters {
            num_queries,
            blowup_factor,
            grinding_factor,
            hash_fn,
            field_extension,
            fri_folding_factor,
            fri_max_remainder_size,
        }
    }
}

} // verus!
