use vstd::prelude::*;

use crate::error::Error;

verus! {

/// `who` is among the identities whose control the host proved for this call.
pub open spec fn proves(signers: Seq<String>, who: String) -> bool {
    exists|i: int| 0 <= i < signers.len() && (#[trigger] signers[i])@ == who@
}

/// The authorization gate: lets the operation go on only when `who` has
/// proven control, and fails with `Unauthorized` otherwise.
pub fn require_auth(signers: &Vec<String>, who: &String) -> (r: Result<(), Error>)
    ensures
        r is Ok <==> proves(signers@, *who),
        r is Err ==> r == Err::<(), Error>(Error::Unauthorized),
{
    let mut i: usize = 0;
    while i < signers.len()
        invariant
            0 <= i <= signers.len(),
            forall|j: int| 0 <= j < i ==> (#[trigger] signers@[j])@ != who@,
        decreases signers.len() - i,
    {
        if signers[i] == *who {
            assert(signers@[i as int]@ == who@);
            return Ok(());
        }
        i += 1;
    }
    Err(Error::Unauthorized)
}

} // verus!
