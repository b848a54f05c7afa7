//! The prover's side: its proof parameters, and the statement it advertises for a trace.

use vstd::prelude::*;

use crate::air::{boundary_assertions, NUM_ASSERTIONS};
use crate::field::all_canonical;
use crate::options::ProofParameters;
use crate::statement::PublicInputs;
use crate::trace::{built_cell, ExecutionTrace};
use crate::{TRACE_LENGTH, TRACE_WIDTH};

verus! {

/// The preimage that a trace advertises: row 0 of columns 0 to 3.
pub open spec fn advertised_input(t: ExecutionTrace) -> Seq<u64> {
    Seq::new(4, |i: int| t.cell(i, 0))
}

/// The digest that a trace advertises: the last row of columns 4 and 5.
pub open spec fn advertised_hash(t: ExecutionTrace) -> Seq<u64> {
    Seq::new(2, |i: int| t.cell(4 + i, TRACE_LENGTH - 1))
}

/// Proves statements about traces with fixed proof parameters.
pub struct RpoProver {
    options: ProofParameters,
}

impl RpoProver {
    /// The parameters this prover uses.
    pub closed spec fn parameters(&self) -> ProofParameters {
        self.options
    }

    /// A prover with the given proof parameters.
    pub fn new(options: ProofParameters) -> (p: RpoProver)
        ensures
            p.parameters() == options,
    {
        RpoProver { options }
    }

    /// The proof parameters.
    pub fn options(&self) -> (o: &ProofParameters)
        ensures
            *o == self.parameters(),
    {
        &self.options
    }

    /// The statement a proof of `trace` is about: the preimage from row 0 of columns 0 to 3,
    /// the digest from the last row of columns 4 and 5.
    pub fn get_pub_inputs(&self, trace: &ExecutionTrace) -> (s: PublicInputs)
        requires
            trace.wf(),
        ensures
            s.wf(),
            s.input@ == advertised_input(*trace),
            s.hash@ == advertised_hash(*trace),
    {
        let last = TRACE_LENGTH - 1;
        let s = PublicInputs {
            input: [trace.get(0, 0), trace.get(1, 0), trace.get(2, 0), trace.get(3, 0)],
            hash: [trace.get(4, last), trace.get(5, last)],
        };
        assert(s.input@ =~= advertised_input(*trace));
        assert(s.hash@ =~= advertised_hash(*trace));
        s
    }
}

/// A trace built from a statement advertises that same statement.
pub proof fn lemma_advertised_statement_of_built_trace(t: ExecutionTrace, s: PublicInputs)
    requires
        s.wf(),
        t.wf(),
        forall|c: int, r: int|
            0 <= c < TRACE_WIDTH && 0 <= r < TRACE_LENGTH ==> #[trigger] t.cell(c, r)
                == built_cell(s.input@, s.hash@, c, r),
    ensures
        advertised_input(t) == s.input@,
        advertised_hash(t) == s.hash@,
{
    assert forall|i: int| 0 <= i < 4 implies advertised_input(t)[i] == s.input@[i] by {
        assert(t.cell(i, 0) == built_cell(s.input@, s.hash@, i, 0));
        assert(all_canonical(s.input@) && s.input@[i] < crate::field::MODULUS);
    }
    assert forall|i: int| 0 <= i < 2 implies advertised_hash(t)[i] == s.hash@[i] by {
        assert(t.cell(4 + i, TRACE_LENGTH - 1) == built_cell(s.input@, s.hash@, 4 + i, TRACE_LENGTH - 1));
        assert(all_canonical(s.hash@) && s.hash@[i] < crate::field::MODULUS);
    }
    assert(advertised_input(t) =~= s.input@);
    assert(advertised_hash(t) =~= s.hash@);
}

/// Every boundary assertion of the statement that a trace advertises holds of that trace.
pub proof fn lemma_trace_meets_advertised_assertions(t: ExecutionTrace)
    requires
        t.wf(),
    ensures
        forall|i: int|
            0 <= i < NUM_ASSERTIONS ==> {
                let a = #[trigger] boundary_assertions(advertised_input(t), advertised_hash(t))[i];
                t.cell(a.column as int, a.step as int) == a.value
            },
{
}

} // verus!
