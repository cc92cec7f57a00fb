//! The execution trace of the recurrence: a table of field elements with one
//! column per register and one row per step.

use crate::field::Felt;
use vstd::prelude::*;

verus! {

/// How many units of the requested length make one row of the trace: each
/// row advances both registers, so a run of length `n` has `n / 2` rows.
pub const LENGTH_PER_ROW: usize = 2;

/// The successor of a register pair: the first register takes the sum of
/// both, the second then adds the new first register to itself.
pub open spec fn next_state(state: (Felt, Felt)) -> (Felt, Felt) {
    let first = state.0 + state.1;
    (first, state.1 + first)
}

/// The register pair after `step` steps, starting from `(1, 1)`.
pub open spec fn work_state(step: nat) -> (Felt, Felt)
    decreases step,
{
    if step == 0 {
        (Felt::spec_one(), Felt::spec_one())
    } else {
        next_state(work_state((step - 1) as nat))
    }
}

/// A table: at least one column, at least two rows, all columns of one
/// length.
pub open spec fn is_table(columns: Seq<Seq<Felt>>) -> bool {
    &&& columns.len() >= 1
    &&& columns[0].len() >= 2
    &&& forall|c: int| 0 <= c < columns.len() ==> (#[trigger] columns[c]).len() == columns[0].len()
}

/// Rows `step` and `step + 1` of a two-column table obey the transition
/// rule.
pub open spec fn step_holds(columns: Seq<Seq<Felt>>, step: int) -> bool {
    (columns[0][step + 1], columns[1][step + 1]) == next_state(
        (columns[0][step], columns[1][step]),
    )
}

/// The table is the trace of the recurrence: two columns, the first row
/// `(1, 1)`, and every row but the first derived from the row before it.
pub open spec fn is_work_trace(columns: Seq<Seq<Felt>>) -> bool {
    &&& is_table(columns)
    &&& columns.len() == 2
    &&& columns[0][0] == Felt::spec_one()
    &&& columns[1][0] == Felt::spec_one()
    &&& forall|step: int| 0 <= step < columns[0].len() - 1 ==> step_holds(columns, step)
}

/// Row `step` of a table: the cells of every column at that step.
pub open spec fn row(columns: Seq<Seq<Felt>>, step: int) -> Seq<Felt> {
    Seq::new(columns.len(), |c: int| columns[c][step])
}

/// In a trace of the recurrence every row but the first is built from the
/// row before it: the first register is the sum of both earlier registers,
/// and the second register is its earlier value plus the new first
/// register.
pub proof fn lemma_trace_recurrence(columns: Seq<Seq<Felt>>, step: int)
    requires
        is_work_trace(columns),
        1 <= step < columns[0].len(),
    ensures
        columns[0][step] == columns[0][step - 1] + columns[1][step - 1],
        columns[1][step] == columns[1][step - 1] + columns[0][step],
{
    assert(step_holds(columns, step - 1));
}

/// Row `step` of a trace of the recurrence is the register pair after
/// `step` steps; the table has no freedom left.
pub proof fn lemma_trace_rows(columns: Seq<Seq<Felt>>, step: int)
    requires
        is_work_trace(columns),
        0 <= step < columns[0].len(),
    ensures
        (columns[0][step], columns[1][step]) == work_state(step as nat),
    decreases step,
{
    if step > 0 {
        lemma_trace_rows(columns, step - 1);
        assert(step_holds(columns, step - 1));
    }
}

/// Every cell of a trace of the recurrence is a canonical field element.
pub proof fn lemma_trace_cells_canonical(columns: Seq<Seq<Felt>>, column: int, step: int)
    requires
        is_work_trace(columns),
        0 <= column < 2,
        0 <= step < columns[0].len(),
    ensures
        columns[column][step].is_canonical(),
{
    Felt::lemma_identities();
    if step > 0 {
        assert(step_holds(columns, step - 1));
        Felt::lemma_add(columns[0][step - 1], columns[1][step - 1]);
        Felt::lemma_add(columns[1][step - 1], columns[0][step]);
    }
}

/// The columns of a vector of columns, as sequences.
pub open spec fn column_views(columns: Seq<Vec<Felt>>) -> Seq<Seq<Felt>> {
    Seq::new(columns.len(), |c: int| columns[c]@)
}

/// Width and length of a trace.
#[derive(Clone, Copy, Debug, PartialEq, Eq, Structural)]
pub struct TraceInfo {
    width: usize,
    length: usize,
}

impl TraceInfo {
    #[verifier::type_invariant]
    spec fn well_formed(self) -> bool {
        self.width >= 1 && self.length >= 2
    }

    /// Number of columns.
    pub closed spec fn spec_width(&self) -> usize {
        self.width
    }

    /// Number of rows.
    pub closed spec fn spec_length(&self) -> usize {
        self.length
    }

    /// Metadata of a trace with `width` columns and `length` rows.
    pub fn new(width: usize, length: usize) -> (info: TraceInfo)
        requires
            width >= 1,
            length >= 2,
        ensures
            info.width() == width,
            info.length() == length,
    {
        TraceInfo { width, length }
    }

    /// Number of columns; at least one.
    #[verifier::when_used_as_spec(spec_width)]
    pub fn width(&self) -> (w: usize)
        ensures
            w == self.width(),
            w >= 1,
    {
        proof {
            use_type_invariant(self);
        }
        self.width
    }

    /// Number of rows; at least two.
    #[verifier::when_used_as_spec(spec_length)]
    pub fn length(&self) -> (l: usize)
        ensures
            l == self.length(),
            l >= 2,
    {
        proof {
            use_type_invariant(self);
        }
        self.length
    }
}

/// An execution trace, stored column by column.
#[derive(Debug)]
pub struct ExecutionTrace {
    columns: Vec<Vec<Felt>>,
}

impl View for ExecutionTrace {
    type V = Seq<Seq<Felt>>;

    closed spec fn view(&self) -> Seq<Seq<Felt>> {
        Seq::new(self.columns@.len(), |c: int| self.columns@[c]@)
    }
}

impl ExecutionTrace {
    #[verifier::type_invariant]
    spec fn well_formed(self) -> bool {
        &&& self.columns@.len() >= 1
        &&& self.columns@[0]@.len() >= 2
        &&& forall|c: int|
            0 <= c < self.columns@.len() ==> (#[trigger] self.columns@[c])@.len()
                == self.columns@[0]@.len()
    }

    /// The view of a well-formed trace is a table, column for column.
    proof fn lemma_view(self)
        requires
            self.well_formed(),
        ensures
            is_table(self@),
            self@.len() == self.columns@.len(),
            forall|c: int| 0 <= c < self.columns@.len() ==> #[trigger] self@[c] == self.columns@[c]@,
    {
    }

    /// A trace made of the given columns, if they form a table: at least one
    /// column, at least two rows, all columns of one length.
    pub fn init(columns: Vec<Vec<Felt>>) -> (trace: Option<ExecutionTrace>)
        ensures
            trace.is_some() == is_table(column_views(columns@)),
            trace matches Some(t) ==> t@ == column_views(columns@),
    {
        let ghost views = column_views(columns@);
        if columns.len() == 0 {
            return None;
        }
        let length = columns[0].len();
        assert(views[0] == columns@[0]@);
        if length < 2 {
            return None;
        }
        let mut c: usize = 1;
        while c < columns.len()
            invariant
                1 <= c <= columns@.len(),
                views == column_views(columns@),
                length == views[0].len(),
                forall|k: int| 0 <= k < c ==> (#[trigger] views[k]).len() == length,
            decreases columns@.len() - c,
        {
            assert(views[c as int] == columns@[c as int]@);
            if columns[c].len() != length {
                return None;
            }
            c += 1;
        }
        proof {
            assert forall|k: int| 0 <= k < columns@.len() implies (#[trigger] columns@[k])@.len()
                == columns@[0]@.len() by {
                assert(views[k] == columns@[k]@);
            }
        }
        let trace = ExecutionTrace { columns };
        proof {
            trace.lemma_view();
            assert(trace@ =~= views);
        }
        Some(trace)
    }

    /// Number of columns.
    pub fn width(&self) -> (w: usize)
        ensures
            is_table(self@),
            w == self@.len(),
    {
        proof {
            use_type_invariant(self);
            self.lemma_view();
        }
        self.columns.len()
    }

    /// Number of rows.
    pub fn length(&self) -> (l: usize)
        ensures
            is_table(self@),
            l == self@[0].len(),
    {
        proof {
            use_type_invariant(self);
            self.lemma_view();
        }
        self.columns[0].len()
    }

    /// Width and length of this trace.
    pub fn get_info(&self) -> (info: TraceInfo)
        ensures
            is_table(self@),
            info.width() == self@.len(),
            info.length() == self@[0].len(),
    {
        TraceInfo::new(self.width(), self.length())
    }

    /// The cell in `column` at row `step`.
    pub fn get(&self, column: usize, step: usize) -> (value: Felt)
        requires
            column < self@.len(),
            step < self@[0].len(),
        ensures
            value == self@[column as int][step as int],
            value.is_canonical(),
    {
        proof {
            use_type_invariant(self);
            self.lemma_view();
        }
        let value = self.columns[column][step];
        proof {
            use_type_invariant(&value);
        }
        value
    }

    /// The trace with the cell in `column` at row `step` replaced by `value`.
    pub fn with_cell(self, column: usize, step: usize, value: Felt) -> (updated: ExecutionTrace)
        requires
            column < self@.len(),
            step < self@[0].len(),
        ensures
            updated@ == self@.update(
                column as int,
                self@[column as int].update(step as int, value),
            ),
    {
        proof {
            use_type_invariant(&self);
            self.lemma_view();
        }
        let mut columns = self.columns;
        columns[column][step] = value;
        let updated = ExecutionTrace { columns };
        proof {
            updated.lemma_view();
            assert(updated@ =~= self@.update(
                column as int,
                self@[column as int].update(step as int, value),
            ));
        }
        updated
    }
}

/// Runs the recurrence and records it: a trace of two columns and
/// `n / LENGTH_PER_ROW` rows that starts at `(1, 1)` and in which every
/// later row is the successor of the row before it. A run needs at least
/// two rows.
pub fn build_do_work_trace(n: usize) -> (trace: ExecutionTrace)
    requires
        n / LENGTH_PER_ROW >= 2,
    ensures
        is_work_trace(trace@),
        trace@[0].len() == n / LENGTH_PER_ROW,
{
    let rows = n / LENGTH_PER_ROW;
    let mut first = Felt::one();
    let mut second = Felt::one();
    let mut column0: Vec<Felt> = Vec::new();
    let mut column1: Vec<Felt> = Vec::new();
    column0.push(first);
    column1.push(second);
    let mut step: usize = 1;
    while step < rows
        invariant
            1 <= step <= rows,
            column0@.len() == step,
            column1@.len() == step,
            column0@[0] == Felt::spec_one(),
            column1@[0] == Felt::spec_one(),
            first == column0@[step - 1],
            second == column1@[step - 1],
            forall|k: int|
                0 <= k < step - 1 ==> (#[trigger] column0@[k + 1], column1@[k + 1]) == next_state(
                    (column0@[k], column1@[k]),
                ),
        decreases rows - step,
    {
        first = first + second;
        second = second + first;
        column0.push(first);
        column1.push(second);
        step += 1;
    }
    let mut columns: Vec<Vec<Felt>> = Vec::new();
    columns.push(column0);
    columns.push(column1);
    let trace = ExecutionTrace { columns };
    proof {
        trace.lemma_view();
    }
    trace
}

} // verus!
