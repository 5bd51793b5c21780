use vstd::prelude::*;

use crate::auth::AuthContext;
use crate::errors::Error;
use crate::manager::OracleManager;
use crate::records::{EventView, MarketRecord, MarketView, OracleEvent};
use crate::state::StateView;

verus! {

impl StateView {
    /// Which reason code `register_market` returns, if any: only the
    /// administrator's authentication is checked.
    pub open spec fn register_market_error(self, proven: Seq<u64>) -> Option<Error> {
        if !proven.contains(self.admin) {
            Some(Error::NotAuthorized)
        } else {
            None
        }
    }

    /// State after a successful `register_market`: the resolution time is
    /// (re-)written and both tally counters reset to zero. A re-registration
    /// keeps the market's attestation ledger, so the counters can lag behind
    /// it afterwards; the consensus evaluator is immune because it re-derives
    /// its counts from the ledger.
    pub open spec fn register_market_next(self, market_id: u64, resolution_time: u64) -> StateView {
        let markets = if self.has_market(market_id) {
            let i = self.market_index(market_id);
            self.markets.update(
                i,
                MarketView {
                    market_id,
                    resolution_time,
                    yes_count: 0,
                    no_count: 0,
                    attestations: self.markets[i].attestations,
                },
            )
        } else {
            self.markets.push(
                MarketView {
                    market_id,
                    resolution_time,
                    yes_count: 0,
                    no_count: 0,
                    attestations: Seq::empty(),
                },
            )
        };
        StateView {
            markets,
            events: self.events.push(
                EventView::MarketRegistered { market_id, resolution_time },
            ),
            ..self
        }
    }

    /// A successful market registration preserves the state invariant.
    pub proof fn lemma_register_market_next_inv(self, market_id: u64, resolution_time: u64)
        requires
            self.inv(),
        ensures
            self.register_market_next(market_id, resolution_time).inv(),
    {
        let post = self.register_market_next(market_id, resolution_time);
        if self.has_market(market_id) {
            let i = self.market_index(market_id);
            assert(0 <= i < self.markets.len() && self.markets[i].market_id == market_id);
            assert forall|a: int, b: int|
                #![trigger post.markets[a], post.markets[b]]
                0 <= a < b < post.markets.len() implies post.markets[a].market_id
                != post.markets[b].market_id by {
                assert(self.markets[a].market_id != self.markets[b].market_id);
            }
            assert forall|k: int| 0 <= k < post.markets.len() implies post.market_inv(
                #[trigger] post.markets[k],
            ) by {
                assert(self.market_inv(self.markets[k]));
                let m = post.markets[k];
                assert(m.attestations == self.markets[k].attestations);
                assert forall|t: int| 0 <= t < m.attestations.len() implies post.is_oracle(
                    (#[trigger] m.attestations[t]).attestor,
                ) by {
                    assert(self.is_oracle(self.markets[k].attestations[t].attestor));
                    let w = choose|x: int|
                        0 <= x < self.oracles.len() && (#[trigger] self.oracles[x]).identity
                            == self.markets[k].attestations[t].attestor;
                    assert(post.oracles[w].identity == m.attestations[t].attestor);
                }
            }
        } else {
            assert forall|a: int, b: int|
                #![trigger post.markets[a], post.markets[b]]
                0 <= a < b < post.markets.len() implies post.markets[a].market_id
                != post.markets[b].market_id by {
                if b < self.markets.len() {
                    assert(self.markets[a].market_id != self.markets[b].market_id);
                } else {
                    assert(post.markets[b].market_id == market_id);
                    assert(self.markets[a].market_id != market_id);
                }
            }
            assert forall|k: int| 0 <= k < post.markets.len() implies post.market_inv(
                #[trigger] post.markets[k],
            ) by {
                if k < self.markets.len() {
                    assert(self.market_inv(self.markets[k]));
                    let m = post.markets[k];
                    assert(m.attestations == self.markets[k].attestations);
                    assert forall|t: int| 0 <= t < m.attestations.len() implies post.is_oracle(
                        (#[trigger] m.attestations[t]).attestor,
                    ) by {
                        assert(self.is_oracle(self.markets[k].attestations[t].attestor));
                        let w = choose|x: int|
                            0 <= x < self.oracles.len() && (#[trigger] self.oracles[x]).identity
                                == self.markets[k].attestations[t].attestor;
                        assert(post.oracles[w].identity == m.attestations[t].attestor);
                    }
                } else {
                    assert(post.markets[k].attestations.len() == 0);
                }
            }
        }
    }
}

impl OracleManager {
    /// Register a market's resolution time. Administrator-only. Writes the
    /// resolution time and resets both tally counters to zero; calling it
    /// again for the same market silently resets the counters (a hazard: call
    /// it exactly once per market, before any attestation). Appends a market
    /// registration event.
    pub fn register_market(
        &mut self,
        market_id: u64,
        resolution_time: u64,
        auth: &AuthContext,
    ) -> (r: Result<(), Error>)
        requires
            old(self).wf(),
        ensures
            final(self).wf(),
            match r {
                Ok(()) => old(self)@.register_market_error(auth.proven@) is None && final(self)@
                    == old(self)@.register_market_next(market_id, resolution_time),
                Err(e) => old(self)@.register_market_error(auth.proven@) == Some(e) && final(self)@
                    == old(self)@,
            },
    {
        if !auth.proves(self.admin) {
            return Err(Error::NotAuthorized);
        }
        let ghost pre = self@;
        match self.find_market(market_id) {
            Some(i) => {
                let mut rec = self.markets.remove(i);
                rec.resolution_time = resolution_time;
                rec.yes_count = 0;
                rec.no_count = 0;
                self.markets.insert(i, rec);
                proof {
                    let next = pre.register_market_next(market_id, resolution_time);
                    assert(self@.markets =~= next.markets);
                }
            },
            None => {
                self.markets.push(
                    MarketRecord {
                        market_id,
                        resolution_time,
                        yes_count: 0,
                        no_count: 0,
                        attestations: Vec::new(),
                    },
                );
                proof {
                    let next = pre.register_market_next(market_id, resolution_time);
                    assert(self@.markets[pre.markets.len() as int].attestations =~= Seq::empty());
                    assert(self@.markets =~= next.markets);
                }
            },
        }
        self.events.push(OracleEvent::MarketRegistered { market_id, resolution_time });
        proof {
            let next = pre.register_market_next(market_id, resolution_time);
            assert(self@.events =~= next.events);
            assert(self@ =~= next);
            pre.lemma_register_market_next_inv(market_id, resolution_time);
        }
        Ok(())
    }

    /// The market's resolution time, if it is registered.
    pub fn get_market_resolution_time(&self, market_id: u64) -> (r: Option<u64>)
        requires
            self.wf(),
        ensures
            r == self@.resolution_time_of(market_id),
    {
        match self.find_market(market_id) {
            Some(i) => Some(self.markets[i].resolution_time),
            None => None,
        }
    }

    /// The running (yes, no) tally counters for a market; (0, 0) for an
    /// unknown market.
    pub fn get_attestation_counts(&self, market_id: u64) -> (r: (u32, u32))
        requires
            self.wf(),
        ensures
            r == self@.counts_of(market_id),
    {
        match self.find_market(market_id) {
            Some(i) => (self.markets[i].yes_count, self.markets[i].no_count),
            None => (0, 0),
        }
    }
}

} // verus!
