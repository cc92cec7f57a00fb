//! The algebraic intermediate representation of the recurrence: the
//! transition constraints that adjacent rows of a trace must satisfy and the
//! boundary assertions on its first and last rows.

use crate::field::Felt;
use crate::options::ProofParameters;
use crate::trace::{is_table, is_work_trace, next_state, row, step_holds, ExecutionTrace, TraceInfo};
use core::ops::Sub;
use vstd::prelude::*;

verus! {

/// Degree of a transition constraint as a polynomial in the trace cells.
#[derive(Clone, Copy, Debug, PartialEq, Eq, Structural)]
pub struct ConstraintDegree {
    base: usize,
}

impl ConstraintDegree {
    #[verifier::type_invariant]
    spec fn positive(self) -> bool {
        self.base >= 1
    }

    /// The degree.
    pub closed spec fn spec_base(&self) -> usize {
        self.base
    }

    /// Descriptor of a constraint of the given degree.
    pub fn new(degree: usize) -> (d: ConstraintDegree)
        requires
            degree > 0,
        ensures
            d.base() == degree,
    {
        ConstraintDegree { base: degree }
    }

    /// The degree; at least one.
    #[verifier::when_used_as_spec(spec_base)]
    pub fn base(&self) -> (degree: usize)
        ensures
            degree == self.base(),
            degree >= 1,
    {
        proof {
            use_type_invariant(self);
        }
        self.base
    }
}

/// The claim that one cell of the trace holds a given value.
#[derive(Clone, Copy, Debug, PartialEq, Eq, Structural)]
pub struct Assertion {
    /// Column of the cell.
    pub column: usize,
    /// Row of the cell.
    pub step: usize,
    /// The value the cell must hold.
    pub value: Felt,
}

impl Assertion {
    /// The cell lies in the table and holds the asserted value.
    pub open spec fn holds_on(&self, columns: Seq<Seq<Felt>>) -> bool {
        &&& self.column < columns.len()
        &&& self.step < columns[self.column as int].len()
        &&& columns[self.column as int][self.step as int] == self.value
    }

    /// The assertion that the cell in `column` at row `step` equals `value`.
    pub fn single(column: usize, step: usize, value: Felt) -> (assertion: Assertion)
        ensures
            assertion == (Assertion { column, step, value }),
    {
        Assertion { column, step, value }
    }

    /// Checks the assertion against a trace.
    pub fn is_satisfied_by(&self, trace: &ExecutionTrace) -> (holds: bool)
        ensures
            holds == self.holds_on(trace@),
    {
        if self.column < trace.width() && self.step < trace.length() {
            trace.get(self.column, self.step) == self.value
        } else {
            false
        }
    }
}

/// What an [`AirContext`] holds, as mathematical values.
pub struct AirContextView {
    /// Shape of the trace.
    pub trace_info: TraceInfo,
    /// Declared degree of each transition constraint, in evaluation order.
    pub degrees: Seq<ConstraintDegree>,
    /// Number of boundary assertions.
    pub num_assertions: usize,
    /// Parameters of the proving session.
    pub options: ProofParameters,
}

/// The declarations an engine needs before it evaluates anything: the shape
/// of the trace, the number and degrees of the transition constraints, the
/// number of assertions, and the proof parameters.
#[derive(Debug)]
pub struct AirContext {
    trace_info: TraceInfo,
    degrees: Vec<ConstraintDegree>,
    num_assertions: usize,
    options: ProofParameters,
}

impl View for AirContext {
    type V = AirContextView;

    closed spec fn view(&self) -> AirContextView {
        AirContextView {
            trace_info: self.trace_info,
            degrees: self.degrees@,
            num_assertions: self.num_assertions,
            options: self.options,
        }
    }
}

impl AirContext {
    #[verifier::type_invariant]
    spec fn well_formed(self) -> bool {
        self.degrees@.len() >= 1 && self.num_assertions >= 1
    }

    /// A context for a single-segment trace. At least one constraint and one
    /// assertion must be declared.
    pub fn new(
        trace_info: TraceInfo,
        transition_constraint_degrees: Vec<ConstraintDegree>,
        num_assertions: usize,
        options: ProofParameters,
    ) -> (context: AirContext)
        requires
            transition_constraint_degrees@.len() > 0,
            num_assertions > 0,
        ensures
            context@ == (AirContextView {
                trace_info,
                degrees: transition_constraint_degrees@,
                num_assertions,
                options,
            }),
    {
        AirContext { trace_info, degrees: transition_constraint_degrees, num_assertions, options }
    }

    /// Shape of the trace.
    pub fn trace_info(&self) -> (info: TraceInfo)
        ensures
            info == self@.trace_info,
    {
        self.trace_info
    }

    /// Number of rows of the trace.
    pub fn trace_len(&self) -> (length: usize)
        ensures
            length == self@.trace_info.length(),
            length >= 2,
    {
        self.trace_info.length()
    }

    /// Declared degrees of the transition constraints, in evaluation order.
    pub fn transition_constraint_degrees(&self) -> (degrees: &Vec<ConstraintDegree>)
        ensures
            degrees@ == self@.degrees,
            degrees@.len() >= 1,
    {
        proof {
            use_type_invariant(self);
        }
        &self.degrees
    }

    /// Number of transition constraints; at least one.
    pub fn num_transition_constraints(&self) -> (count: usize)
        ensures
            count == self@.degrees.len(),
            count >= 1,
    {
        proof {
            use_type_invariant(self);
        }
        self.degrees.len()
    }

    /// Number of boundary assertions; at least one.
    pub fn num_assertions(&self) -> (count: usize)
        ensures
            count == self@.num_assertions,
            count >= 1,
    {
        proof {
            use_type_invariant(self);
        }
        self.num_assertions
    }

    /// Parameters of the proving session.
    pub fn options(&self) -> (options: ProofParameters)
        ensures
            options == self@.options,
    {
        self.options
    }
}

/// The two constraint residuals of one step, over any element type with a
/// specified subtraction: the next first register less both current
/// registers, and the next second register less the current second and the
/// next first.
pub open spec fn transition_residuals<E: Sub<Output = E>>(current: Seq<E>, next: Seq<E>) -> (E, E) {
    (
        vstd::std_specs::ops::SubSpec::sub_spec(
            vstd::std_specs::ops::SubSpec::sub_spec(next[0], current[0]),
            current[1],
        ),
        vstd::std_specs::ops::SubSpec::sub_spec(
            vstd::std_specs::ops::SubSpec::sub_spec(next[1], current[1]),
            next[0],
        ),
    )
}

/// The element type permits every subtraction that the constraints perform
/// on these rows.
pub open spec fn residuals_defined<E: Sub<Output = E>>(current: Seq<E>, next: Seq<E>) -> bool {
    &&& vstd::std_specs::ops::SubSpec::sub_req(next[0], current[0])
    &&& vstd::std_specs::ops::SubSpec::sub_req(
        vstd::std_specs::ops::SubSpec::sub_spec(next[0], current[0]),
        current[1],
    )
    &&& vstd::std_specs::ops::SubSpec::sub_req(next[1], current[1])
    &&& vstd::std_specs::ops::SubSpec::sub_req(
        vstd::std_specs::ops::SubSpec::sub_spec(next[1], current[1]),
        next[0],
    )
}

/// The three boundary assertions for a trace of `trace_length` rows and a
/// claimed result: both registers start at one, and the second register
/// ends at the result.
pub open spec fn work_assertions(trace_length: usize, result: Felt) -> Seq<Assertion> {
    seq![
        Assertion { column: 0, step: 0, value: Felt::spec_one() },
        Assertion { column: 1, step: 0, value: Felt::spec_one() },
        Assertion { column: 1, step: (trace_length - 1) as usize, value: result },
    ]
}

/// What a [`WorkAir`] holds, as mathematical values.
pub struct WorkAirView {
    /// The declarations made at construction.
    pub context: AirContextView,
    /// The claimed final value of the second register.
    pub result: Felt,
}

/// The AIR of one run of the recurrence: its context and the claimed result.
#[derive(Debug)]
pub struct WorkAir {
    context: AirContext,
    result: Felt,
}

impl View for WorkAir {
    type V = WorkAirView;

    closed spec fn view(&self) -> WorkAirView {
        WorkAirView { context: self.context@, result: self.result }
    }
}

impl WorkAir {
    /// The AIR for a trace of the given shape and a claimed result: two
    /// transition constraints of degree one and three assertions. The trace
    /// must have exactly two columns.
    pub fn new(trace_info: TraceInfo, pub_input: Felt, options: ProofParameters) -> (air: WorkAir)
        requires
            trace_info.width() == 2,
        ensures
            air@.result == pub_input,
            air@.context.trace_info == trace_info,
            air@.context.options == options,
            air@.context.num_assertions == 3,
            air@.context.degrees.len() == 2,
            air@.context.degrees[0].base() == 1,
            air@.context.degrees[1].base() == 1,
    {
        let mut degrees: Vec<ConstraintDegree> = Vec::new();
        degrees.push(ConstraintDegree::new(1));
        degrees.push(ConstraintDegree::new(1));
        let num_assertions: usize = 3;
        WorkAir {
            context: AirContext::new(trace_info, degrees, num_assertions, options),
            result: pub_input,
        }
    }

    /// Evaluates both transition constraints on a pair of adjacent rows and
    /// writes the residuals to the first two slots of `result`. The formulas
    /// use subtraction alone, so they read the same over the base field and
    /// over any extension of it.
    pub fn evaluate_transition<E: Copy + Sub<Output = E>>(
        &self,
        current: &[E],
        next: &[E],
        _periodic_values: &[E],
        result: &mut [E],
    )
        requires
            current@.len() >= 2,
            next@.len() >= 2,
            old(result)@.len() >= 2,
            <E as vstd::std_specs::ops::SubSpec>::obeys_sub_spec(),
            residuals_defined(current@, next@),
        ensures
            final(result)@.len() == old(result)@.len(),
            final(result)@[0] == transition_residuals(current@, next@).0,
            final(result)@[1] == transition_residuals(current@, next@).1,
            forall|k: int| 2 <= k < old(result)@.len() ==> final(result)@[k] == old(result)@[k],
    {
        result[0] = next[0] - current[0] - current[1];
        result[1] = next[1] - current[1] - next[0];
    }

    /// The boundary assertions: both registers are one in the first row, and
    /// the second register holds the claimed result in the last row.
    pub fn get_assertions(&self) -> (assertions: Vec<Assertion>)
        ensures
            assertions@ == work_assertions(self@.context.trace_info.length(), self@.result),
    {
        let last_step = self.trace_length() - 1;
        let mut assertions: Vec<Assertion> = Vec::new();
        assertions.push(Assertion::single(0, 0, Felt::one()));
        assertions.push(Assertion::single(1, 0, Felt::one()));
        assertions.push(Assertion::single(1, last_step, self.result));
        assertions
    }

    /// The declarations made at construction.
    pub fn context(&self) -> (context: &AirContext)
        ensures
            context@ == self@.context,
    {
        &self.context
    }

    /// Number of rows of the trace; at least two.
    pub fn trace_length(&self) -> (length: usize)
        ensures
            length == self@.context.trace_info.length(),
            length >= 2,
    {
        self.context.trace_len()
    }

    /// The claimed final value of the second register.
    pub fn result(&self) -> (result: Felt)
        ensures
            result == self@.result,
            result.is_canonical(),
    {
        let result = self.result;
        proof {
            use_type_invariant(&result);
        }
        result
    }
}

/// On every pair of adjacent rows of a trace of the recurrence both
/// transition constraints evaluate to zero.
pub proof fn lemma_constraints_vanish_on_trace(columns: Seq<Seq<Felt>>, step: int)
    requires
        is_work_trace(columns),
        0 <= step < columns[0].len() - 1,
    ensures
        transition_residuals(row(columns, step), row(columns, step + 1)) == (
            Felt::spec_zero(),
            Felt::spec_zero(),
        ),
{
    assert(step_holds(columns, step));
    crate::trace::lemma_trace_cells_canonical(columns, 0, step + 1);
    crate::trace::lemma_trace_cells_canonical(columns, 1, step + 1);
    lemma_constraints_vanish_iff_step(row(columns, step), row(columns, step + 1));
}

/// The constraints encode the transition rule exactly: on a pair of rows,
/// the second of them canonical, both residuals are zero if and only if the
/// second row is the successor of the first.
pub proof fn lemma_constraints_vanish_iff_step(current: Seq<Felt>, next: Seq<Felt>)
    requires
        current.len() >= 2,
        next.len() >= 2,
        next[0].is_canonical(),
        next[1].is_canonical(),
    ensures
        transition_residuals(current, next) == (Felt::spec_zero(), Felt::spec_zero()) <==> (
            next[0],
            next[1],
        ) == next_state((current[0], current[1])),
{
    let residuals = transition_residuals(current, next);
    let successor = next_state((current[0], current[1]));
    Felt::lemma_identities();
    Felt::lemma_sub(next[0], current[0]);
    Felt::lemma_sub(next[0] - current[0], current[1]);
    Felt::lemma_sub(next[1], current[1]);
    Felt::lemma_sub(next[1] - current[1], next[0]);
    Felt::lemma_add(current[0], current[1]);
    Felt::lemma_add(current[1], successor.0);
    Felt::lemma_view_injective(residuals.0, Felt::spec_zero());
    Felt::lemma_view_injective(residuals.1, Felt::spec_zero());
    Felt::lemma_view_injective(next[0], successor.0);
    Felt::lemma_view_injective(next[1], successor.1);
}

/// The transition rule loses nothing: canonical register pairs with the
/// same successor are the same pair.
pub proof fn lemma_next_state_injective(a: (Felt, Felt), b: (Felt, Felt))
    requires
        a.0.is_canonical(),
        a.1.is_canonical(),
        b.0.is_canonical(),
        b.1.is_canonical(),
        next_state(a) == next_state(b),
    ensures
        a == b,
{
    Felt::lemma_add(a.0, a.1);
    Felt::lemma_add(b.0, b.1);
    Felt::lemma_add(a.1, a.0 + a.1);
    Felt::lemma_add(b.1, b.0 + b.1);
    Felt::lemma_view_injective(a.1, b.1);
    Felt::lemma_view_injective(a.0, b.0);
}

/// Changing one cell of a trace of the recurrence to another canonical
/// value is detected at the changed row: the constraints leave a non-zero
/// residual on the step into that row, where there is one, and on the step
/// out of it, where there is one.
pub proof fn lemma_corrupted_cell_is_detected(
    columns: Seq<Seq<Felt>>,
    column: int,
    step: int,
    value: Felt,
)
    requires
        is_work_trace(columns),
        0 <= column < 2,
        0 <= step < columns[0].len(),
        value.is_canonical(),
        value != columns[column][step],
    ensures
        ({
            let corrupted = columns.update(column, columns[column].update(step, value));
            let zeros = (Felt::spec_zero(), Felt::spec_zero());
            &&& step >= 1 ==> transition_residuals(row(corrupted, step - 1), row(corrupted, step))
                != zeros
            &&& step < columns[0].len() - 1 ==> transition_residuals(
                row(corrupted, step),
                row(corrupted, step + 1),
            ) != zeros
        }),
{
    let corrupted = columns.update(column, columns[column].update(step, value));
    crate::trace::lemma_trace_cells_canonical(columns, 0, step);
    crate::trace::lemma_trace_cells_canonical(columns, 1, step);
    if step >= 1 {
        assert(step_holds(columns, step - 1));
        lemma_constraints_vanish_iff_step(row(corrupted, step - 1), row(corrupted, step));
    }
    if step < columns[0].len() - 1 {
        assert(step_holds(columns, step));
        crate::trace::lemma_trace_cells_canonical(columns, 0, step + 1);
        crate::trace::lemma_trace_cells_canonical(columns, 1, step + 1);
        lemma_constraints_vanish_iff_step(row(corrupted, step), row(corrupted, step + 1));
        if (corrupted[0][step + 1], corrupted[1][step + 1]) == next_state(
            (corrupted[0][step], corrupted[1][step]),
        ) {
            lemma_next_state_injective(
                (corrupted[0][step], corrupted[1][step]),
                (columns[0][step], columns[1][step]),
            );
        }
    }
}

/// All three assertions hold on a trace of the recurrence when the claimed
/// result is the last cell of its second column.
pub proof fn lemma_assertions_hold_on_trace(columns: Seq<Seq<Felt>>, trace_length: usize)
    requires
        is_work_trace(columns),
        columns[0].len() == trace_length,
    ensures
        forall|k: int|
            0 <= k < 3 ==> (#[trigger] work_assertions(
                trace_length,
                columns[1][trace_length - 1],
            )[k]).holds_on(columns),
{
}

/// On a table whose last cell in the second column differs from the claimed
/// result, the last assertion fails.
pub proof fn lemma_wrong_result_fails_last_assertion(
    columns: Seq<Seq<Felt>>,
    trace_length: usize,
    result: Felt,
)
    requires
        is_table(columns),
        columns.len() >= 2,
        columns[0].len() == trace_length,
        columns[1][trace_length - 1] != result,
    ensures
        !work_assertions(trace_length, result)[2].holds_on(columns),
{
}

} // verus!
