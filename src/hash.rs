//! The hash primitive: Rescue-Prime over the 64-bit field (`Rp64_256`).

use vstd::prelude::*;
use winterfell::crypto::hashers::Rp64_256;
use winterfell::crypto::ElementHasher;
use winterfell::math::fields::f64::BaseElement;

use crate::field::all_canonical;

verus! {

/// The digest that `Rp64_256` computes of a sequence of field elements.
pub uninterp spec fn rpo_digest_of(elements: Seq<u64>) -> Seq<u64>;

/// Relies on `Rp64_256::hash_elements` over `BaseElement::new` of each value, read back
/// with `BaseElement::as_int`: a digest of four elements, each in canonical form.
#[verifier::external_body]
pub(crate) fn rpo_hash_elements(preimage: &[u64; 4]) -> (r: [u64; 4])
    ensures
        r@ == rpo_digest_of(preimage@),
        all_canonical(r@),
{
    let elements = preimage.map(BaseElement::new);
    let digest = Rp64_256::hash_elements(&elements);
    let out = digest.as_elements();
    [out[0].as_int(), out[1].as_int(), out[2].as_int(), out[3].as_int()]
}

} // verus!
