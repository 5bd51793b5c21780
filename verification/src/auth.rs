use vstd::prelude::*;

verus! {

/// The authentication capability, injected by the host per call.
///
/// `proven` lists the identities that have presented a valid authentication
/// proof for the current call. The engine never checks proofs itself; it only
/// asks whether a claimed identity is in this allow-list, so a host can back it
/// with real signature verification and a test can back it with a fixed list.
pub struct AuthContext {
    pub proven: Vec<u64>,
}

impl AuthContext {
    /// Whether `identity` has proven control in the current call.
    pub open spec fn proves_spec(self, identity: u64) -> bool {
        self.proven@.contains(identity)
    }

    pub fn proves(&self, identity: u64) -> (r: bool)
        ensures
            r == self.proves_spec(identity),
    {
        let mut i: usize = 0;
        while i < self.proven.len()
            invariant
                i <= self.proven.len(),
                forall|j: int| 0 <= j < i ==> self.proven@[j] != identity,
            decreases self.proven.len() - i,
        {
            if self.proven[i] == identity {
                return true;
            }
            i += 1;
        }
        false
    }
}

} // verus!
