//! Ledger addresses and the authorization context of one contract invocation.

use vstd::prelude::*;

verus! {

broadcast use vstd::array::group_array_axioms;

/// An account (`G...`) or contract (`C...`) address, held as its 56-byte
/// Stellar strkey.
#[derive(Clone, Copy, Debug, PartialEq, Eq, Hash)]
pub struct Address {
    pub strkey: [u8; 56],
}

impl Address {
    /// The address whose strkey is `strkey`.
    pub fn from_strkey(strkey: [u8; 56]) -> (r: Address)
        ensures
            r.strkey == strkey,
    {
        Address { strkey }
    }

    /// Whether two addresses are the same address.
    pub fn same_as(&self, other: &Address) -> (r: bool)
        ensures
            r == (*self == *other),
    {
        let mut i: usize = 0;
        while i < 56
            invariant
                0 <= i <= 56,
                forall|j: int| 0 <= j < i ==> self.strkey@[j] == other.strkey@[j],
            decreases 56 - i,
        {
            if self.strkey[i] != other.strkey[i] {
                return false;
            }
            i = i + 1;
        }
        assert(self.strkey =~= other.strkey);
        true
    }
}

/// The addresses that have authorized the current invocation.
///
/// On the ledger an authorization check that fails aborts the whole
/// invocation; the registry operations therefore require that every address
/// whose authorization they demand is allowed here.
#[derive(Clone, Debug)]
pub enum Authorization {
    /// Every address has authorized the invocation (as under a host that
    /// mocks all authorizations).
    Everyone,
    /// Exactly these addresses have authorized the invocation.
    Signers(Vec<Address>),
}

impl Authorization {
    pub open spec fn authorizes(&self, a: Address) -> bool {
        match self {
            Authorization::Everyone => true,
            Authorization::Signers(v) => v@.contains(a),
        }
    }

    /// Whether `a` has authorized the invocation.
    #[verifier::loop_isolation(false)]
    pub fn permits(&self, a: &Address) -> (r: bool)
        ensures
            r == self.authorizes(*a),
    {
        match self {
            Authorization::Everyone => true,
            Authorization::Signers(v) => {
                let mut i: usize = 0;
                while i < v.len()
                    invariant
                        0 <= i <= v.len(),
                        forall|j: int| 0 <= j < i ==> v@[j] != *a,
                    decreases v.len() - i,
                {
                    if v[i].same_as(a) {
                        assert(v@[i as int] == *a);
                        return true;
                    }
                    i = i + 1;
                }
                false
            },
        }
    }
}

/// What one contract invocation learns from its host: the ledger timestamp
/// and which addresses authorized it.
#[derive(Clone, Debug)]
pub struct Invocation {
    pub timestamp: u64,
    pub auth: Authorization,
}

} // verus!
