//! The proving side of the harness: the prover's configuration, the public
//! input it derives from a trace, and the fixed instance of the computation
//! that the example proves.

use crate::field::Felt;
use crate::options::{FieldExtension, HashFunction, ProofParameters};
use crate::trace::{build_do_work_trace, is_work_trace, ExecutionTrace, LENGTH_PER_ROW};
use vstd::prelude::*;

verus! {

/// Length parameter of the example run; its trace has half as many rows.
pub const WORK_LENGTH: usize = 1_048_576;

/// The public input of a trace: the last cell of its second column.
pub open spec fn public_input(columns: Seq<Seq<Felt>>) -> Felt {
    columns[1][columns[0].len() - 1]
}

/// A prover for the recurrence; it holds the parameters of the protocol.
#[derive(Debug)]
pub struct WorkProver {
    options: ProofParameters,
}

impl View for WorkProver {
    type V = ProofParameters;

    closed spec fn view(&self) -> ProofParameters {
        self.options
    }
}

impl WorkProver {
    /// A prover that works with the given parameters.
    pub fn new(options: ProofParameters) -> (prover: WorkProver)
        ensures
            prover@ == options,
    {
        WorkProver { options }
    }

    /// The public input for a trace: the value of the second register in the
    /// last row.
    pub fn get_pub_inputs(&self, trace: &ExecutionTrace) -> (result: Felt)
        requires
            trace@.len() >= 2,
        ensures
            result == public_input(trace@),
            result.is_canonical(),
    {
        let last_step = trace.length() - 1;
        trace.get(1, last_step)
    }

    /// The parameters of the protocol.
    pub fn options(&self) -> (options: &ProofParameters)
        ensures
            *options == self@,
    {
        &self.options
    }
}

/// The parameters of the example run.
pub open spec fn spec_work_parameters() -> ProofParameters {
    ProofParameters {
        num_queries: 32,
        blowup_factor: 8,
        grinding_factor: 0,
        hash_fn: HashFunction::Blake3_256,
        field_extension: FieldExtension::Base,
        fri_folding_factor: 8,
        fri_max_remainder_size: 128,
    }
}

/// The parameters of the example run: 32 queries, blowup factor 8, no
/// grinding, BLAKE3 with 256-bit output, no field extension, FRI folding
/// factor 8 and a FRI remainder of at most 128 elements. They target a
/// security level of about 96 bits.
#[verifier::when_used_as_spec(spec_work_parameters)]
pub fn work_parameters() -> (parameters: ProofParameters)
    ensures
        parameters == spec_work_parameters(),
{
    ProofParameters::new(32, 8, 0, HashFunction::Blake3_256, FieldExtension::Base, 8, 128)
}

/// Everything the example run hands to the proving engine: the prover with
/// its parameters, the trace of the recurrence for [`WORK_LENGTH`], and the
/// public result read off that trace.
pub fn prepare_work() -> (job: (WorkProver, ExecutionTrace, Felt))
    ensures
        job.0@ == work_parameters(),
        is_work_trace(job.1@),
        job.1@[0].len() == WORK_LENGTH / LENGTH_PER_ROW,
        job.2 == public_input(job.1@),
        job.2.is_canonical(),
{
    let trace = build_do_work_trace(WORK_LENGTH);
    let prover = WorkProver::new(work_parameters());
    let result = prover.get_pub_inputs(&trace);
    (prover, trace, result)
}

} // verus!
