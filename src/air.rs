//! The constraint program (AIR): three transition constraints of degree one, which hold of
//! every frame, and six boundary assertions that tie the trace to the statement.

use vstd::prelude::*;

use crate::options::ProofParameters;
use crate::statement::PublicInputs;
use crate::trace::TraceError;
use crate::{TRACE_LENGTH, TRACE_WIDTH};

verus! {

/// Number of transition constraints.
pub const NUM_TRANSITION_CONSTRAINTS: usize = 3;

/// Number of boundary assertions.
pub const NUM_ASSERTIONS: usize = 6;

/// Width and length of a trace, as the proof describes it.
#[derive(Clone, Copy, Debug, PartialEq, Eq, Structural)]
pub struct TraceShape {
    pub width: usize,
    pub length: usize,
}

/// One cell of the trace fixed to a value.
#[derive(Clone, Copy, Debug, PartialEq, Eq, Structural)]
pub struct BoundaryAssertion {
    pub column: usize,
    pub step: usize,
    pub value: u64,
}

/// What the program declares to the proving engine.
#[derive(Clone, Debug)]
pub struct AirContext {
    pub trace_width: usize,
    pub trace_length: usize,
    /// Degree of each transition constraint.
    pub transition_degrees: Vec<usize>,
    pub num_assertions: usize,
    pub options: ProofParameters,
}

/// The boundary assertions of a statement: row 0 of columns 0 to 3 holds the preimage, the
/// last row of columns 4 and 5 holds the digest.
pub open spec fn boundary_assertions(input: Seq<u64>, hash: Seq<u64>) -> Seq<BoundaryAssertion> {
    Seq::new(
        NUM_ASSERTIONS as nat,
        |i: int|
            if i < 4 {
                BoundaryAssertion { column: i as usize, step: 0, value: input[i] }
            } else {
                BoundaryAssertion {
                    column: i as usize,
                    step: (TRACE_LENGTH - 1) as usize,
                    value: hash[i - 4],
                }
            },
    )
}

/// The constraint program of one statement.
pub struct RpoHashAir {
    context: AirContext,
    input: [u64; 4],
    hash: [u64; 2],
}

impl RpoHashAir {
    /// The declaration made to the engine.
    pub closed spec fn layout(&self) -> AirContext {
        self.context
    }

    /// The boundary assertions of the program.
    pub closed spec fn assertions(&self) -> Seq<BoundaryAssertion> {
        boundary_assertions(self.input@, self.hash@)
    }

    /// The program for a trace of the given shape, a statement and proof parameters: three
    /// transition constraints of degree one and six boundary assertions. A shape other than
    /// `TRACE_WIDTH` columns by `TRACE_LENGTH` rows is rejected.
    pub fn new(trace_info: TraceShape, pub_inputs: PublicInputs, options: ProofParameters) -> (r:
        Result<RpoHashAir, TraceError>)
        ensures
            trace_info.width != TRACE_WIDTH || trace_info.length != TRACE_LENGTH ==> r == Err::<
                RpoHashAir,
                TraceError,
            >(TraceError::ShapeMismatch),
            trace_info.width == TRACE_WIDTH && trace_info.length == TRACE_LENGTH ==> r is Ok && {
                let air = r->Ok_0;
                &&& air.layout().trace_width == TRACE_WIDTH
                &&& air.layout().trace_length == TRACE_LENGTH
                &&& air.layout().transition_degrees@ == seq![1usize, 1, 1]
                &&& air.layout().num_assertions == NUM_ASSERTIONS
                &&& air.layout().options == options
                &&& air.assertions() == boundary_assertions(pub_inputs.input@, pub_inputs.hash@)
            },
    {
        if trace_info.width != TRACE_WIDTH || trace_info.length != TRACE_LENGTH {
            return Err(TraceError::ShapeMismatch);
        }
        let degrees: Vec<usize> = vec![1, 1, 1];
        assert(degrees@ =~= seq![1usize, 1, 1]);
        Ok(
            RpoHashAir {
                context: AirContext {
                    trace_width: TRACE_WIDTH,
                    trace_length: TRACE_LENGTH,
                    transition_degrees: degrees,
                    num_assertions: NUM_ASSERTIONS,
                    options,
                },
                input: pub_inputs.input,
                hash: pub_inputs.hash,
            },
        )
    }

    /// The declaration made to the engine.
    pub fn context(&self) -> (c: &AirContext)
        ensures
            *c == self.layout(),
    {
        &self.context
    }

    /// Evaluates the transition constraints on a frame: each of them is zero, whatever the
    /// frame holds.
    pub fn evaluate_transition(&self, result: &mut Vec<u64>)
        ensures
            final(result)@.len() == old(result)@.len(),
            forall|i: int| 0 <= i < final(result)@.len() ==> #[trigger] final(result)@[i] == 0,
    {
        let n = result.len();
        let mut i: usize = 0;
        while i < n
            invariant
                0 <= i <= n,
                n == result@.len(),
                forall|k: int| 0 <= k < i ==> #[trigger] result@[k] == 0,
            decreases n - i,
        {
            result.set(i, 0);
            i = i + 1;
        }
    }

    /// The six boundary assertions.
    pub fn get_assertions(&self) -> (r: Vec<BoundaryAssertion>)
        ensures
            r@ == self.assertions(),
    {
        let last = TRACE_LENGTH - 1;
        let r = vec![
            BoundaryAssertion { column: 0, step: 0, value: self.input[0] },
            BoundaryAssertion { column: 1, step: 0, value: self.input[1] },
            BoundaryAssertion { column: 2, step: 0, value: self.input[2] },
            BoundaryAssertion { column: 3, step: 0, value: self.input[3] },
            BoundaryAssertion { column: 4, step: last, value: self.hash[0] },
            BoundaryAssertion { column: 5, step: last, value: self.hash[1] },
        ];
        assert(r@ =~= self.assertions());
        r
    }
}

/// The boundary assertions fix exactly row 0 of columns 0 to 3 to the preimage and the last
/// row of columns 4 and 5 to the digest.
pub proof fn lemma_assertion_coordinates(pub_inputs: PublicInputs)
    ensures
        ({
            let a = boundary_assertions(pub_inputs.input@, pub_inputs.hash@);
            &&& a.len() == NUM_ASSERTIONS
            &&& forall|i: int|
                0 <= i < 4 ==> (#[trigger] a[i]).column == i && a[i].step == 0 && a[i].value
                    == pub_inputs.input[i]
            &&& forall|i: int|
                4 <= i < 6 ==> (#[trigger] a[i]).column == i && a[i].step == TRACE_LENGTH - 1
                    && a[i].value == pub_inputs.hash[i - 4]
        }),
{
}

/// Changing one element of the claimed digest, and nothing else, changes the boundary
/// assertion on that element's cell, and no other.
pub proof fn lemma_digest_change_changes_assertion(a: PublicInputs, b: PublicInputs, k: int)
    requires
        0 <= k < 2,
        a.input@ == b.input@,
        a.hash[k] != b.hash[k],
        forall|j: int| 0 <= j < 2 && j != k ==> a.hash[j] == b.hash[j],
    ensures
        boundary_assertions(a.input@, a.hash@)[4 + k] != boundary_assertions(b.input@, b.hash@)[4
            + k],
        forall|i: int|
            0 <= i < NUM_ASSERTIONS && i != 4 + k ==> boundary_assertions(a.input@, a.hash@)[i]
                == boundary_assertions(b.input@, b.hash@)[i],
{
}

} // verus!
