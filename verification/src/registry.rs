use vstd::prelude::*;

use crate::auth::AuthContext;
use crate::errors::Error;
use crate::manager::OracleManager;
use crate::records::{EventView, OracleEvent, OracleRecord, OracleView};
use crate::state::{StateView, INITIAL_ACCURACY, MAX_ORACLES};

verus! {

impl StateView {
    /// Which reason code `register_oracle` returns, if any: the first failing
    /// check in gate order (authentication, capacity, uniqueness).
    pub open spec fn register_oracle_error(self, oracle: u64, proven: Seq<u64>) -> Option<Error> {
        if !proven.contains(self.admin) {
            Some(Error::NotAuthorized)
        } else if self.oracles.len() >= MAX_ORACLES {
            Some(Error::RegistryFull)
        } else if self.is_oracle(oracle) {
            Some(Error::AlreadyRegistered)
        } else {
            None
        }
    }

    /// State after a successful `register_oracle`: the oracle is appended with
    /// accuracy 100 and registration time `now`, and the event is logged.
    pub open spec fn register_oracle_next(self, oracle: u64, name: Seq<char>, now: u64) -> StateView {
        StateView {
            oracles: self.oracles.push(
                OracleView { identity: oracle, name, accuracy: INITIAL_ACCURACY, registered_at: now },
            ),
            events: self.events.push(EventView::OracleRegistered { oracle, name, timestamp: now }),
            ..self
        }
    }
}

impl OracleManager {
    /// Register a reporter identity. The administrator must prove control;
    /// fails with `RegistryFull` once 10 oracles are registered and with
    /// `AlreadyRegistered` if the identity is present. On success the oracle
    /// is stored with accuracy 100 and the registration timestamp `now`, and a
    /// registration event is appended. A failing call changes nothing.
    pub fn register_oracle(
        &mut self,
        oracle: u64,
        oracle_name: String,
        auth: &AuthContext,
        now: u64,
    ) -> (r: Result<(), Error>)
        requires
            old(self).wf(),
        ensures
            final(self).wf(),
            match r {
                Ok(()) => old(self)@.register_oracle_error(oracle, auth.proven@) is None
                    && final(self)@ == old(self)@.register_oracle_next(oracle, oracle_name@, now),
                Err(e) => old(self)@.register_oracle_error(oracle, auth.proven@) == Some(e)
                    && final(self)@ == old(self)@,
            },
    {
        if !auth.proves(self.admin) {
            return Err(Error::NotAuthorized);
        }
        if self.oracles.len() >= MAX_ORACLES {
            return Err(Error::RegistryFull);
        }
        if self.oracle_registered(oracle) {
            return Err(Error::AlreadyRegistered);
        }
        let ghost pre = self@;
        let ghost nm = oracle_name@;
        let event_name = oracle_name.clone();
        self.oracles.push(
            OracleRecord {
                identity: oracle,
                name: oracle_name,
                accuracy: INITIAL_ACCURACY,
                registered_at: now,
            },
        );
        self.events.push(OracleEvent::OracleRegistered { oracle, name: event_name, timestamp: now });
        proof {
            let post = self@;
            let next = pre.register_oracle_next(oracle, nm, now);
            assert(post.oracles =~= next.oracles);
            assert(post.events =~= next.events);
            assert(post =~= next);
            pre.lemma_register_oracle_next_inv(oracle, nm, now);
        }
        Ok(())
    }
}

impl StateView {
    /// A successful registration preserves the state invariant.
    pub proof fn lemma_register_oracle_next_inv(self, oracle: u64, name: Seq<char>, now: u64)
        requires
            self.inv(),
            self.oracles.len() < MAX_ORACLES,
            !self.is_oracle(oracle),
        ensures
            self.register_oracle_next(oracle, name, now).inv(),
    {
        let post = self.register_oracle_next(oracle, name, now);
        assert forall|i: int, j: int|
            #![trigger post.oracles[i], post.oracles[j]]
            0 <= i < j < post.oracles.len() implies post.oracles[i].identity
            != post.oracles[j].identity by {
            if j < self.oracles.len() {
                assert(self.oracles[i].identity != self.oracles[j].identity);
            } else {
                assert(post.oracles[j].identity == oracle);
                assert(self.oracles[i].identity != oracle);
            }
        }
        assert forall|k: int| 0 <= k < post.markets.len() implies post.market_inv(
            #[trigger] post.markets[k],
        ) by {
            assert(self.market_inv(self.markets[k]));
            let m = post.markets[k];
            assert forall|t: int| 0 <= t < m.attestations.len() implies post.is_oracle(
                (#[trigger] m.attestations[t]).attestor,
            ) by {
                assert(self.is_oracle(m.attestations[t].attestor));
                let w = choose|i: int|
                    0 <= i < self.oracles.len() && (#[trigger] self.oracles[i]).identity
                        == m.attestations[t].attestor;
                assert(post.oracles[w].identity == m.attestations[t].attestor);
            }
        }
    }
}

} // verus!
