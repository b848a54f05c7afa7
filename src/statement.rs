//! The public statement: a claimed preimage and its claimed digest, and their encoding
//! as a flat sequence of field elements.

use vstd::prelude::*;

use crate::field::{all_canonical, felt, to_canonical};
use crate::hash::{rpo_digest_of, rpo_hash_elements};

verus! {

/// Why a statement could not be built from the values given.
#[derive(Clone, Copy, Debug, PartialEq, Eq, Structural)]
pub enum StatementError {
    /// The preimage does not hold exactly four elements.
    InputLength,
    /// The digest does not hold exactly two elements.
    HashLength,
}

/// Public inputs of the proof: the claimed preimage and the claimed digest.
#[derive(Clone, Copy, Debug)]
pub struct PublicInputs {
    pub input: [u64; 4],
    pub hash: [u64; 2],
}

impl PartialEq for PublicInputs {
    fn eq(&self, o: &PublicInputs) -> (r: bool) {
        let r = self.input[0] == o.input[0] && self.input[1] == o.input[1] && self.input[2]
            == o.input[2] && self.input[3] == o.input[3] && self.hash[0] == o.hash[0]
            && self.hash[1] == o.hash[1];
        proof {
            if r {
                assert(self.input@ =~= o.input@);
                assert(self.hash@ =~= o.hash@);
            }
        }
        r
    }
}

impl vstd::std_specs::cmp::PartialEqSpecImpl for PublicInputs {
    open spec fn obeys_eq_spec() -> bool {
        true
    }

    open spec fn eq_spec(&self, o: &PublicInputs) -> bool {
        self.input@ == o.input@ && self.hash@ == o.hash@
    }
}

impl Eq for PublicInputs {
}

/// Each element of the result is the field element of the same element of `s`.
pub open spec fn felts(s: Seq<u64>) -> Seq<u64> {
    s.map_values(|v: u64| felt(v))
}

impl PublicInputs {
    /// All elements of the statement are canonical field elements.
    pub open spec fn wf(&self) -> bool {
        all_canonical(self.input@) && all_canonical(self.hash@)
    }

    /// The flat encoding: the preimage, then the digest, each in index order.
    pub open spec fn encoding(&self) -> Seq<u64> {
        self.input@ + self.hash@
    }

    /// A statement of the given preimage and digest; each value is taken as the field
    /// element it stands for.
    pub fn new(input: [u64; 4], hash: [u64; 2]) -> (r: PublicInputs)
        ensures
            r.wf(),
            r.input@ == felts(input@),
            r.hash@ == felts(hash@),
    {
        let r = PublicInputs {
            input: [
                to_canonical(input[0]),
                to_canonical(input[1]),
                to_canonical(input[2]),
                to_canonical(input[3]),
            ],
            hash: [to_canonical(hash[0]), to_canonical(hash[1])],
        };
        assert(r.input@ =~= felts(input@));
        assert(r.hash@ =~= felts(hash@));
        r
    }

    /// A statement of a preimage and a digest of any length; only a preimage of four and
    /// a digest of two elements are accepted.
    pub fn from_slices(input: &[u64], hash: &[u64]) -> (r: Result<PublicInputs, StatementError>)
        ensures
            input@.len() != 4 ==> r == Err::<PublicInputs, StatementError>(
                StatementError::InputLength,
            ),
            input@.len() == 4 && hash@.len() != 2 ==> r == Err::<PublicInputs, StatementError>(
                StatementError::HashLength,
            ),
            input@.len() == 4 && hash@.len() == 2 ==> r is Ok && r->Ok_0.wf()
                && r->Ok_0.input@ == felts(input@) && r->Ok_0.hash@ == felts(hash@),
    {
        if input.len() != 4 {
            return Err(StatementError::InputLength);
        }
        if hash.len() != 2 {
            return Err(StatementError::HashLength);
        }
        let r = PublicInputs::new([input[0], input[1], input[2], input[3]], [hash[0], hash[1]]);
        assert(input@ =~= seq![input[0], input[1], input[2], input[3]]);
        assert(hash@ =~= seq![hash[0], hash[1]]);
        Ok(r)
    }

    /// The statement of a preimage and the digest that the hash primitive gave for it:
    /// the first two digest elements are the claimed hash.
    pub fn from_digest(preimage: [u64; 4], digest: [u64; 4]) -> (r: PublicInputs)
        ensures
            r.wf(),
            r.input@ == felts(preimage@),
            r.hash@ == felts(digest@.subrange(0, 2)),
    {
        let r = PublicInputs::new(preimage, [digest[0], digest[1]]);
        assert(felts(digest@.subrange(0, 2)) =~= felts(seq![digest[0], digest[1]]));
        assert(seq![digest[0], digest[1]] =~= [digest[0], digest[1]]@);
        r
    }

    /// The statement of a preimage whose digest is computed here by the hash primitive.
    pub fn from_preimage(preimage: [u64; 4]) -> (r: PublicInputs)
        ensures
            r.wf(),
            r.input@ == felts(preimage@),
            r.hash@ == felts(rpo_digest_of(preimage@).subrange(0, 2)),
    {
        let digest = rpo_hash_elements(&preimage);
        PublicInputs::from_digest(preimage, digest)
    }

    /// The flat encoding of the statement: the four preimage elements, then the two digest
    /// elements, in index order.
    pub fn to_elements(&self) -> (r: Vec<u64>)
        ensures
            r@ == self.encoding(),
            r@.len() == 6,
    {
        let mut r: Vec<u64> = Vec::new();
        let mut i: usize = 0;
        while i < 4
            invariant
                0 <= i <= 4,
                r@ == self.input@.subrange(0, i as int),
            decreases 4 - i,
        {
            r.push(self.input[i]);
            assert(self.input@.subrange(0, i + 1) =~= self.input@.subrange(0, i as int).push(self.input[i as int]));
            i = i + 1;
        }
        let mut j: usize = 0;
        while j < 2
            invariant
                0 <= j <= 2,
                r@ == self.input@ + self.hash@.subrange(0, j as int),
            decreases 2 - j,
        {
            r.push(self.hash[j]);
            assert(self.hash@.subrange(0, j + 1) =~= self.hash@.subrange(0, j as int).push(self.hash[j as int]));
            j = j + 1;
        }
        assert(self.input@.subrange(0, 4) =~= self.input@);
        assert(self.hash@.subrange(0, 2) =~= self.hash@);
        r
    }
}

/// Encoding is a function of the statement: two equal statements encode to the same six
/// elements, the preimage first and the digest after it.
pub proof fn lemma_encoding_deterministic(a: PublicInputs, b: PublicInputs)
    requires
        a == b,
    ensures
        a.encoding() == b.encoding(),
        a.encoding().len() == 6,
        forall|i: int| 0 <= i < 4 ==> a.encoding()[i] == a.input[i],
        forall|i: int| 0 <= i < 2 ==> a.encoding()[4 + i] == a.hash[i],
{
}

} // verus!
