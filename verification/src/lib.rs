//! Verified core of a family of on-chain custody programs: a simple vault and
//! two escrow variants that hold a depositor's assets under a program-derived
//! authority and release them only when a matching signer, a correctly derived
//! custody address, a sufficient balance, and (for escrows) an unexpired time
//! window are all verified.

use vstd::prelude::*;

pub mod addr;
pub mod errors;
pub mod escrow;
pub mod exchange;
pub mod ledger;
pub mod vault;

verus! {

/// A 32-byte account address, the identity of every party and account that the
/// custody programs speak of.
#[derive(Clone, Copy, Debug)]
pub struct Address {
    pub bytes: [u8; 32],
}

impl View for Address {
    type V = Seq<u8>;

    open spec fn view(&self) -> Seq<u8> {
        self.bytes@
    }
}

impl PartialEq for Address {
    fn eq(&self, other: &Address) -> (r: bool)
        ensures
            r <==> self@ == other@,
    {
        let mut i: usize = 0;
        while i < 32
            invariant
                0 <= i <= 32,
                forall|j: int| 0 <= j < i ==> self.bytes@[j] == other.bytes@[j],
            decreases 32 - i,
        {
            if self.bytes[i] != other.bytes[i] {
                return false;
            }
            i = i + 1;
        }
        proof {
            assert(self.bytes@ =~= other.bytes@);
        }
        true
    }
}

impl vstd::std_specs::cmp::PartialEqSpecImpl for Address {
    open spec fn obeys_eq_spec() -> bool {
        true
    }

    open spec fn eq_spec(&self, other: &Address) -> bool {
        self@ == other@
    }
}

} // verus!
