use vstd::prelude::*;

use crate::auth::AuthContext;
use crate::errors::Error;
use crate::manager::{contains_u64, OracleManager};
use crate::records::{EventView, OracleEvent};
use crate::state::{StateView, MIN_OVERRIDE_COOLDOWN};

verus! {

impl StateView {
    /// Which reason code `add_admin_signer` returns, if any.
    pub open spec fn add_admin_signer_error(
        self,
        caller: u64,
        new_admin: u64,
        proven: Seq<u64>,
    ) -> Option<Error> {
        if !proven.contains(caller) {
            Some(Error::NotAuthorized)
        } else if !self.is_admin_signer(caller) {
            Some(Error::NotAdmin)
        } else if self.is_admin_signer(new_admin) {
            Some(Error::AlreadyAdmin)
        } else {
            None
        }
    }

    /// State after a successful `add_admin_signer`.
    pub open spec fn add_admin_signer_next(self, new_admin: u64) -> StateView {
        StateView {
            admin_signers: self.admin_signers.push(new_admin),
            events: self.events.push(EventView::AdminSignerAdded { new_admin }),
            ..self
        }
    }

    /// Which reason code `set_required_signatures` returns, if any.
    pub open spec fn set_required_signatures_error(
        self,
        caller: u64,
        required_sigs: u32,
        proven: Seq<u64>,
    ) -> Option<Error> {
        if !proven.contains(caller) {
            Some(Error::NotAuthorized)
        } else if !self.is_admin_signer(caller) {
            Some(Error::NotAdmin)
        } else if required_sigs == 0 || required_sigs > self.admin_signers.len() {
            Some(Error::InvalidValue)
        } else {
            None
        }
    }

    /// State after a successful `set_required_signatures`.
    pub open spec fn set_required_signatures_next(self, required_sigs: u32) -> StateView {
        StateView {
            required_signatures: required_sigs,
            events: self.events.push(
                EventView::RequiredSignaturesUpdated { required_signatures: required_sigs },
            ),
            ..self
        }
    }

    /// Which reason code `set_override_cooldown` returns, if any.
    pub open spec fn set_override_cooldown_error(
        self,
        caller: u64,
        cooldown_seconds: u64,
        proven: Seq<u64>,
    ) -> Option<Error> {
        if !proven.contains(caller) {
            Some(Error::NotAuthorized)
        } else if !self.is_admin_signer(caller) {
            Some(Error::NotAdmin)
        } else if cooldown_seconds < MIN_OVERRIDE_COOLDOWN {
            Some(Error::TooShort)
        } else {
            None
        }
    }

    /// State after a successful `set_override_cooldown`.
    pub open spec fn set_override_cooldown_next(self, cooldown_seconds: u64) -> StateView {
        StateView {
            override_cooldown: cooldown_seconds,
            events: self.events.push(EventView::OverrideCooldownUpdated { cooldown_seconds }),
            ..self
        }
    }

    /// Adding a fresh admin signer preserves the state invariant.
    pub proof fn lemma_add_admin_signer_next_inv(self, new_admin: u64)
        requires
            self.inv(),
            !self.is_admin_signer(new_admin),
        ensures
            self.add_admin_signer_next(new_admin).inv(),
    {
        let post = self.add_admin_signer_next(new_admin);
        assert forall|i: int, j: int|
            #![trigger post.admin_signers[i], post.admin_signers[j]]
            0 <= i < j < post.admin_signers.len() implies post.admin_signers[i]
            != post.admin_signers[j] by {
            if j < self.admin_signers.len() {
                assert(self.admin_signers[i] != self.admin_signers[j]);
            } else {
                assert(post.admin_signers[j] == new_admin);
                assert(self.admin_signers.contains(self.admin_signers[i]));
            }
        }
        self.lemma_same_markets_inv(post);
    }

    /// Two states with the same oracles and markets satisfy the market
    /// clauses of the invariant together.
    pub proof fn lemma_same_markets_inv(self, other: StateView)
        requires
            self.inv(),
            other.oracles == self.oracles,
            other.markets == self.markets,
        ensures
            forall|k: int|
                0 <= k < other.markets.len() ==> other.market_inv(#[trigger] other.markets[k]),
    {
        assert forall|k: int| 0 <= k < other.markets.len() implies other.market_inv(
            #[trigger] other.markets[k],
        ) by {
            assert(self.market_inv(self.markets[k]));
            let m = other.markets[k];
            assert forall|t: int| 0 <= t < m.attestations.len() implies other.is_oracle(
                (#[trigger] m.attestations[t]).attestor,
            ) by {
                assert(self.is_oracle(m.attestations[t].attestor));
                let w = choose|x: int|
                    0 <= x < self.oracles.len() && (#[trigger] self.oracles[x]).identity
                        == m.attestations[t].attestor;
                assert(other.oracles[w].identity == m.attestations[t].attestor);
            }
        }
    }
}

impl OracleManager {
    /// Add an admin signer to the multi-sig set. The caller must prove control
    /// and already be a signer; the new identity must not be one yet. Appends
    /// an event. A failing call changes nothing.
    pub fn add_admin_signer(&mut self, caller: u64, new_admin: u64, auth: &AuthContext) -> (r:
        Result<(), Error>)
        requires
            old(self).wf(),
        ensures
            final(self).wf(),
            match r {
                Ok(()) => old(self)@.add_admin_signer_error(caller, new_admin, auth.proven@)
                    is None && final(self)@ == old(self)@.add_admin_signer_next(new_admin),
                Err(e) => old(self)@.add_admin_signer_error(caller, new_admin, auth.proven@)
                    == Some(e) && final(self)@ == old(self)@,
            },
    {
        if !auth.proves(caller) {
            return Err(Error::NotAuthorized);
        }
        if !contains_u64(&self.admin_signers, caller) {
            return Err(Error::NotAdmin);
        }
        if contains_u64(&self.admin_signers, new_admin) {
            return Err(Error::AlreadyAdmin);
        }
        let ghost pre = self@;
        self.admin_signers.push(new_admin);
        self.events.push(OracleEvent::AdminSignerAdded { new_admin });
        proof {
            let next = pre.add_admin_signer_next(new_admin);
            assert(self@.events =~= next.events);
            assert(self@ =~= next);
            pre.lemma_add_admin_signer_next_inv(new_admin);
        }
        Ok(())
    }

    /// Set how many distinct approvers an emergency override needs. The caller
    /// must prove control and be a signer; the count must be at least one and
    /// no more than the current signer count. Appends an event. A failing call
    /// changes nothing.
    pub fn set_required_signatures(&mut self, caller: u64, required_sigs: u32, auth: &AuthContext) -> (r:
        Result<(), Error>)
        requires
            old(self).wf(),
        ensures
            final(self).wf(),
            match r {
                Ok(()) => old(self)@.set_required_signatures_error(
                    caller,
                    required_sigs,
                    auth.proven@,
                ) is None && final(self)@ == old(self)@.set_required_signatures_next(required_sigs),
                Err(e) => old(self)@.set_required_signatures_error(
                    caller,
                    required_sigs,
                    auth.proven@,
                ) == Some(e) && final(self)@ == old(self)@,
            },
    {
        if !auth.proves(caller) {
            return Err(Error::NotAuthorized);
        }
        if !contains_u64(&self.admin_signers, caller) {
            return Err(Error::NotAdmin);
        }
        if required_sigs == 0 || required_sigs as usize > self.admin_signers.len() {
            return Err(Error::InvalidValue);
        }
        let ghost pre = self@;
        self.required_signatures = required_sigs;
        self.events.push(
            OracleEvent::RequiredSignaturesUpdated { required_signatures: required_sigs },
        );
        proof {
            let next = pre.set_required_signatures_next(required_sigs);
            assert(self@.events =~= next.events);
            assert(self@ =~= next);
            pre.lemma_same_markets_inv(self@);
        }
        Ok(())
    }

    /// Set the global override cooldown in seconds; at least one hour. The
    /// caller must prove control and be a signer. Appends an event. A failing
    /// call changes nothing.
    pub fn set_override_cooldown(&mut self, caller: u64, cooldown_seconds: u64, auth: &AuthContext) -> (r:
        Result<(), Error>)
        requires
            old(self).wf(),
        ensures
            final(self).wf(),
            match r {
                Ok(()) => old(self)@.set_override_cooldown_error(
                    caller,
                    cooldown_seconds,
                    auth.proven@,
                ) is None && final(self)@ == old(self)@.set_override_cooldown_next(
                    cooldown_seconds,
                ),
                Err(e) => old(self)@.set_override_cooldown_error(
                    caller,
                    cooldown_seconds,
                    auth.proven@,
                ) == Some(e) && final(self)@ == old(self)@,
            },
    {
        if !auth.proves(caller) {
            return Err(Error::NotAuthorized);
        }
        if !contains_u64(&self.admin_signers, caller) {
            return Err(Error::NotAdmin);
        }
        if cooldown_seconds < MIN_OVERRIDE_COOLDOWN {
            return Err(Error::TooShort);
        }
        let ghost pre = self@;
        self.override_cooldown = cooldown_seconds;
        self.events.push(OracleEvent::OverrideCooldownUpdated { cooldown_seconds });
        proof {
            let next = pre.set_override_cooldown_next(cooldown_seconds);
            assert(self@.events =~= next.events);
            assert(self@ =~= next);
            pre.lemma_same_markets_inv(self@);
        }
        Ok(())
    }
}

} // verus!
