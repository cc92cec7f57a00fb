use winterfell::math::fields::f128::BaseElement;
use winterfell::math::{FieldElement, StarkField};
use winterfell::{
    Air, AirContext, EvaluationFrame, ProofOptions, Prover, StarkProof, Trace, TraceTable,
    TransitionConstraintDegree,
};
use work_stark::air::WorkAir;
use work_stark::field::Felt;
use work_stark::options::{FieldExtension, HashFunction, ProofParameters};
use work_stark::prover::{prepare_work, work_parameters, WorkProver, WORK_LENGTH};
use work_stark::trace::{build_do_work_trace, ExecutionTrace, TraceInfo};

fn to_engine_options(parameters: &ProofParameters) -> ProofOptions {
    ProofOptions::new(
        parameters.num_queries,
        parameters.blowup_factor,
        parameters.grinding_factor,
        match parameters.hash_fn {
            HashFunction::Blake3_192 => winterfell::HashFunction::Blake3_192,
            HashFunction::Blake3_256 => winterfell::HashFunction::Blake3_256,
            HashFunction::Sha3_256 => winterfell::HashFunction::Sha3_256,
        },
        match parameters.field_extension {
            FieldExtension::Base => winterfell::FieldExtension::None,
            FieldExtension::Quadratic => winterfell::FieldExtension::Quadratic,
            FieldExtension::Cubic => winterfell::FieldExtension::Cubic,
        },
        parameters.fri_folding_factor,
        parameters.fri_max_remainder_size,
    )
}

fn from_engine_options(options: &ProofOptions) -> ProofParameters {
    let fri = options.to_fri_options();
    ProofParameters::new(
        options.num_queries(),
        options.blowup_factor(),
        options.grinding_factor(),
        match options.hash_fn() {
            winterfell::HashFunction::Blake3_192 => HashFunction::Blake3_192,
            winterfell::HashFunction::Blake3_256 => HashFunction::Blake3_256,
            winterfell::HashFunction::Sha3_256 => HashFunction::Sha3_256,
        },
        match options.field_extension() {
            winterfell::FieldExtension::None => FieldExtension::Base,
            winterfell::FieldExtension::Quadratic => FieldExtension::Quadratic,
            winterfell::FieldExtension::Cubic => FieldExtension::Cubic,
        },
        fri.folding_factor(),
        fri.max_remainder_size(),
    )
}

fn to_engine_trace(trace: &ExecutionTrace) -> TraceTable<BaseElement> {
    let mut columns: Vec<Vec<BaseElement>> = Vec::new();
    for column in 0..trace.width() {
        let mut cells: Vec<BaseElement> = Vec::new();
        for step in 0..trace.length() {
            cells.push(BaseElement::new(trace.get(column, step).as_int()));
        }
        columns.push(cells);
    }
    TraceTable::init(columns)
}

fn from_engine_trace(trace: &TraceTable<BaseElement>) -> ExecutionTrace {
    let mut columns: Vec<Vec<Felt>> = Vec::new();
    for column in 0..trace.width() {
        let mut cells: Vec<Felt> = Vec::new();
        for step in 0..trace.length() {
            cells.push(Felt::new(trace.get(column, step).as_int()));
        }
        columns.push(cells);
    }
    ExecutionTrace::init(columns).unwrap()
}

struct EngineAir {
    context: AirContext<BaseElement>,
    air: WorkAir,
}

impl Air for EngineAir {
    type BaseField = BaseElement;
    type PublicInputs = BaseElement;

    fn new(trace_info: winterfell::TraceInfo, pub_input: BaseElement, options: ProofOptions) -> Self {
        assert_eq!(2, trace_info.width());
        let air = WorkAir::new(
            TraceInfo::new(trace_info.width(), trace_info.length()),
            Felt::new(pub_input.as_int()),
            from_engine_options(&options),
        );
        let mut degrees: Vec<TransitionConstraintDegree> = Vec::new();
        for degree in air.context().transition_constraint_degrees() {
            degrees.push(TransitionConstraintDegree::new(degree.base()));
        }
        let context = AirContext::new(trace_info, degrees, air.context().num_assertions(), options);
        EngineAir { context, air }
    }

    fn context(&self) -> &AirContext<BaseElement> {
        &self.context
    }

    fn evaluate_transition<E: FieldElement<BaseField = BaseElement>>(
        &self,
        frame: &EvaluationFrame<E>,
        periodic_values: &[E],
        result: &mut [E],
    ) {
        self.air.evaluate_transition(frame.current(), frame.next(), periodic_values, result);
    }

    fn get_assertions(&self) -> Vec<winterfell::Assertion<BaseElement>> {
        let mut assertions: Vec<winterfell::Assertion<BaseElement>> = Vec::new();
        for assertion in self.air.get_assertions() {
            assertions.push(winterfell::Assertion::single(
                assertion.column,
                assertion.step,
                BaseElement::new(assertion.value.as_int()),
            ));
        }
        assertions
    }
}

struct EngineProver {
    prover: WorkProver,
    options: ProofOptions,
}

impl EngineProver {
    fn new(prover: WorkProver) -> Self {
        let options = to_engine_options(prover.options());
        EngineProver { prover, options }
    }
}

impl Prover for EngineProver {
    type BaseField = BaseElement;
    type Air = EngineAir;
    type Trace = TraceTable<BaseElement>;

    fn get_pub_inputs(&self, trace: &Self::Trace) -> BaseElement {
        BaseElement::new(self.prover.get_pub_inputs(&from_engine_trace(trace)).as_int())
    }

    fn options(&self) -> &ProofOptions {
        &self.options
    }
}

fn prove(n: usize) -> (Felt, StarkProof) {
    let trace: ExecutionTrace = build_do_work_trace(n);
    let prover: WorkProver = WorkProver::new(work_parameters());
    let result: Felt = prover.get_pub_inputs(&trace);
    let proof: StarkProof = EngineProver::new(prover).prove(to_engine_trace(&trace)).unwrap();
    (result, proof)
}

#[test]
fn work_length_is_two_to_the_twentieth() {
    assert_eq!(WORK_LENGTH, 1_048_576);
    assert_eq!(WORK_LENGTH, 1usize << 20);
}

#[test]
fn work_parameters_are_the_fixed_set() {
    let parameters: ProofParameters = work_parameters();
    assert_eq!(parameters.num_queries, 32);
    assert_eq!(parameters.blowup_factor, 8);
    assert_eq!(parameters.grinding_factor, 0);
    assert_eq!(parameters.hash_fn, HashFunction::Blake3_256);
    assert_eq!(parameters.field_extension, FieldExtension::Base);
    assert_eq!(parameters.fri_folding_factor, 8);
    assert_eq!(parameters.fri_max_remainder_size, 128);
}

#[test]
fn parameters_keep_every_field() {
    let parameters: ProofParameters =
        ProofParameters::new(40, 16, 20, HashFunction::Sha3_256, FieldExtension::Quadratic, 4, 256);
    assert_eq!(parameters.num_queries, 40);
    assert_eq!(parameters.blowup_factor, 16);
    assert_eq!(parameters.grinding_factor, 20);
    assert_eq!(parameters.hash_fn, HashFunction::Sha3_256);
    assert_eq!(parameters.field_extension, FieldExtension::Quadratic);
    assert_eq!(parameters.fri_folding_factor, 4);
    assert_eq!(parameters.fri_max_remainder_size, 256);
    assert_ne!(parameters, work_parameters());
}

#[test]
fn parameters_survive_the_engine_round_trip() {
    for hash_fn in [HashFunction::Blake3_192, HashFunction::Blake3_256, HashFunction::Sha3_256] {
        for field_extension in [FieldExtension::Base, FieldExtension::Quadratic, FieldExtension::Cubic] {
            let parameters: ProofParameters =
                ProofParameters::new(28, 4, 16, hash_fn, field_extension, 16, 64);
            assert_eq!(from_engine_options(&to_engine_options(&parameters)), parameters);
        }
    }
}

#[test]
fn prover_keeps_its_parameters() {
    let parameters: ProofParameters =
        ProofParameters::new(40, 16, 20, HashFunction::Sha3_256, FieldExtension::Cubic, 4, 256);
    let prover: WorkProver = WorkProver::new(parameters);
    assert_eq!(*prover.options(), parameters);
}

#[test]
fn public_input_is_the_last_cell_of_the_second_column() {
    let prover: WorkProver = WorkProver::new(work_parameters());
    let trace: ExecutionTrace = build_do_work_trace(16);
    assert_eq!(prover.get_pub_inputs(&trace), trace.get(1, 7));
    assert_eq!(prover.get_pub_inputs(&trace).as_int(), 987);
    let changed: ExecutionTrace = build_do_work_trace(16).with_cell(1, 7, Felt::new(4));
    assert_eq!(prover.get_pub_inputs(&changed).as_int(), 4);
    let wider: ExecutionTrace = ExecutionTrace::init(vec![
        vec![Felt::new(1), Felt::new(2)],
        vec![Felt::new(3), Felt::new(4)],
        vec![Felt::new(5), Felt::new(6)],
    ])
    .unwrap();
    assert_eq!(prover.get_pub_inputs(&wider).as_int(), 4);
}

#[test]
fn public_input_matches_the_engine_trace() {
    let mut engine: TraceTable<BaseElement> = TraceTable::new(2, 64);
    engine.fill(
        |state| {
            state[0] = BaseElement::ONE;
            state[1] = BaseElement::ONE;
        },
        |_, state| {
            state[0] += state[1];
            state[1] += state[0];
        },
    );
    let prover: WorkProver = WorkProver::new(work_parameters());
    let result: Felt = prover.get_pub_inputs(&build_do_work_trace(128));
    assert_eq!(result.as_int(), engine.get(1, engine.length() - 1).as_int());
}

#[test]
fn prepare_work_builds_the_whole_instance() {
    let (prover, trace, result) = prepare_work();
    assert_eq!(*prover.options(), work_parameters());
    assert_eq!(trace.width(), 2);
    assert_eq!(trace.length(), 524_288);
    assert_eq!(trace.get(0, 0), Felt::one());
    assert_eq!(trace.get(1, 0), Felt::one());
    assert_eq!(result, trace.get(1, 524_287));
    let step: usize = 400_000;
    assert_eq!(trace.get(0, step), trace.get(0, step - 1) + trace.get(1, step - 1));
    assert_eq!(trace.get(1, step), trace.get(1, step - 1) + trace.get(0, step));
}

#[test]
fn engine_trace_conversion_keeps_every_cell() {
    let trace: ExecutionTrace = build_do_work_trace(32);
    let engine: TraceTable<BaseElement> = to_engine_trace(&trace);
    let back: ExecutionTrace = from_engine_trace(&engine);
    assert_eq!(engine.width(), 2);
    assert_eq!(engine.length(), 16);
    for column in 0..2usize {
        for step in 0..16usize {
            assert_eq!(engine.get(column, step).as_int(), trace.get(column, step).as_int());
            assert_eq!(back.get(column, step), trace.get(column, step));
        }
    }
}

#[test]
fn engine_accepts_a_proof_of_the_work() {
    let (result, proof) = prove(16);
    assert_eq!(result.as_int(), 987);
    assert!(winterfell::verify::<EngineAir>(proof, BaseElement::new(result.as_int())).is_ok());
}

#[test]
fn engine_accepts_a_proof_of_a_longer_run() {
    let (result, proof) = prove(1024);
    assert!(winterfell::verify::<EngineAir>(proof, BaseElement::new(result.as_int())).is_ok());
}

#[test]
fn engine_rejects_a_wrong_result() {
    let (result, proof) = prove(16);
    let wrong: Felt = result + Felt::one();
    assert!(winterfell::verify::<EngineAir>(proof, BaseElement::new(wrong.as_int())).is_err());
}
