use vstd::prelude::*;

use crate::auth::AuthContext;
use crate::errors::Error;
use crate::manager::OracleManager;
use crate::records::{Attestation, EventView, MarketView, OracleEvent};
use crate::state::StateView;

verus! {

impl StateView {
    /// Which reason code `submit_attestation` returns, if any: the first
    /// failing check in gate order (self-authentication, oracle registration,
    /// market registration, resolution time, binary outcome, one vote per
    /// oracle).
    pub open spec fn submit_attestation_error(
        self,
        oracle: u64,
        market_id: u64,
        outcome: u32,
        proven: Seq<u64>,
        now: u64,
    ) -> Option<Error> {
        if !proven.contains(oracle) {
            Some(Error::NotAuthorized)
        } else if !self.is_oracle(oracle) {
            Some(Error::NotRegistered)
        } else if !self.has_market(market_id) {
            Some(Error::MarketNotRegistered)
        } else if now < self.markets[self.market_index(market_id)].resolution_time {
            Some(Error::TooEarly)
        } else if outcome > 1 {
            Some(Error::InvalidOutcome)
        } else if self.has_attested(market_id, oracle) {
            Some(Error::DuplicateVote)
        } else {
            None
        }
    }

    /// State after a successful `submit_attestation`: the attestation is
    /// appended to the market's ledger (which is also the ordered voter list),
    /// the matching tally counter is incremented, and the event is logged.
    pub open spec fn submit_attestation_next(
        self,
        oracle: u64,
        market_id: u64,
        outcome: u32,
        now: u64,
    ) -> StateView {
        let i = self.market_index(market_id);
        let m = self.markets[i];
        let updated = MarketView {
            attestations: m.attestations.push(
                Attestation { attestor: oracle, outcome, timestamp: now },
            ),
            yes_count: if outcome == 1 {
                (m.yes_count + 1) as u32
            } else {
                m.yes_count
            },
            no_count: if outcome == 1 {
                m.no_count
            } else {
                (m.no_count + 1) as u32
            },
            ..m
        };
        StateView {
            markets: self.markets.update(i, updated),
            events: self.events.push(
                EventView::AttestationSubmitted { market_id, oracle, outcome },
            ),
            ..self
        }
    }

    /// A sequence of attestations by pairwise-distinct registered oracles can
    /// be no longer than the oracle registry.
    pub proof fn lemma_distinct_attestors_bounded(self, atts: Seq<Attestation>)
        requires
            forall|i: int, j: int|
                #![trigger atts[i], atts[j]]
                0 <= i < j < atts.len() ==> atts[i].attestor != atts[j].attestor,
            forall|i: int| 0 <= i < atts.len() ==> self.is_oracle((#[trigger] atts[i]).attestor),
        ensures
            atts.len() <= self.oracles.len(),
    {
        broadcast use vstd::seq_lib::seq_to_set_is_finite;

        let ids = atts.map_values(|a: Attestation| a.attestor);
        assert(ids.no_duplicates()) by {
            assert forall|i: int, j: int|
                0 <= i < ids.len() && 0 <= j < ids.len() && i != j implies ids[i] != ids[j] by {
                if i < j {
                    assert(atts[i].attestor != atts[j].attestor);
                } else {
                    assert(atts[j].attestor != atts[i].attestor);
                }
            }
        }
        ids.unique_seq_to_set();
        self.oracle_ids().lemma_cardinality_of_set();
        assert(ids.to_set().subset_of(self.oracle_ids().to_set())) by {
            assert forall|x: u64| ids.to_set().contains(x) implies self.oracle_ids().to_set()
                .contains(x) by {
                let t = choose|t: int| 0 <= t < ids.len() && ids[t] == x;
                assert(self.is_oracle(atts[t].attestor));
                let w = choose|w: int|
                    0 <= w < self.oracles.len() && (#[trigger] self.oracles[w]).identity == x;
                assert(self.oracle_ids()[w] == x);
                assert(self.oracle_ids().contains(x));
            }
        }
        vstd::set_lib::lemma_len_subset(ids.to_set(), self.oracle_ids().to_set());
    }

    /// A successful attestation preserves the state invariant.
    pub proof fn lemma_submit_attestation_next_inv(
        self,
        oracle: u64,
        market_id: u64,
        outcome: u32,
        now: u64,
    )
        requires
            self.inv(),
            self.is_oracle(oracle),
            self.has_market(market_id),
            outcome <= 1,
            !self.has_attested(market_id, oracle),
        ensures
            self.submit_attestation_next(oracle, market_id, outcome, now).inv(),
    {
        let post = self.submit_attestation_next(oracle, market_id, outcome, now);
        let i = self.market_index(market_id);
        let m = self.markets[i];
        assert(self.market_inv(m));
        assert(self.votes_of(market_id) == m.attestations);
        let att = Attestation { attestor: oracle, outcome, timestamp: now };
        let grown = m.attestations.push(att);
        assert forall|a: int, b: int|
            #![trigger grown[a], grown[b]]
            0 <= a < b < grown.len() implies grown[a].attestor != grown[b].attestor by {
            if b < m.attestations.len() {
                assert(m.attestations[a].attestor != m.attestations[b].attestor);
            } else {
                assert(grown[b].attestor == oracle);
                assert(self.votes_of(market_id)[a].attestor != oracle);
            }
        }
        assert forall|t: int| 0 <= t < grown.len() implies self.is_oracle(
            (#[trigger] grown[t]).attestor,
        ) by {
            if t < m.attestations.len() {
                assert(self.is_oracle(m.attestations[t].attestor));
            }
        }
        self.lemma_distinct_attestors_bounded(grown);
        assert forall|a: int, b: int|
            #![trigger post.markets[a], post.markets[b]]
            0 <= a < b < post.markets.len() implies post.markets[a].market_id
            != post.markets[b].market_id by {
            assert(self.markets[a].market_id != self.markets[b].market_id);
        }
        assert forall|k: int| 0 <= k < post.markets.len() implies post.market_inv(
            #[trigger] post.markets[k],
        ) by {
            assert(self.market_inv(self.markets[k]));
            let mk = post.markets[k];
            assert forall|t: int| 0 <= t < mk.attestations.len() implies post.is_oracle(
                (#[trigger] mk.attestations[t]).attestor,
            ) by {
                assert(self.is_oracle(mk.attestations[t].attestor));
                let w = choose|x: int|
                    0 <= x < self.oracles.len() && (#[trigger] self.oracles[x]).identity
                        == mk.attestations[t].attestor;
                assert(post.oracles[w].identity == mk.attestations[t].attestor);
            }
        }
    }
}

/// Index of `oracle`'s attestation in a ledger, if present.
pub(crate) fn find_attestation_in(atts: &Vec<Attestation>, oracle: u64) -> (r: Option<usize>)
    ensures
        match r {
            Some(i) => i < atts@.len() && atts@[i as int].attestor == oracle,
            None => forall|j: int| 0 <= j < atts@.len() ==> (#[trigger] atts@[j]).attestor != oracle,
        },
{
    let mut i: usize = 0;
    while i < atts.len()
        invariant
            i <= atts.len(),
            forall|j: int| 0 <= j < i ==> (#[trigger] atts@[j]).attestor != oracle,
        decreases atts.len() - i,
    {
        if atts[i].attestor == oracle {
            return Some(i);
        }
        i += 1;
    }
    None
}

impl OracleManager {
    /// Submit an oracle's attestation about a market's outcome.
    ///
    /// The oracle authenticates as itself (self-authorization). The call fails
    /// unless the oracle is registered, the market is registered, the time is
    /// at or after the market's resolution time, the outcome is binary, and
    /// the oracle has not voted on this market before. On success the vote is
    /// persisted with timestamp `now`, the oracle joins the market's voter
    /// list, the matching tally counter is incremented, and an event is
    /// appended. A failing call changes nothing.
    ///
    /// `_data_hash` is the content hash of the oracle's evidence; it
    /// accompanies the submission but is not stored.
    pub fn submit_attestation(
        &mut self,
        oracle: u64,
        market_id: u64,
        attestation_result: u32,
        _data_hash: u64,
        auth: &AuthContext,
        now: u64,
    ) -> (r: Result<(), Error>)
        requires
            old(self).wf(),
        ensures
            final(self).wf(),
            match r {
                Ok(()) => old(self)@.submit_attestation_error(
                    oracle,
                    market_id,
                    attestation_result,
                    auth.proven@,
                    now,
                ) is None && final(self)@ == old(self)@.submit_attestation_next(
                    oracle,
                    market_id,
                    attestation_result,
                    now,
                ),
                Err(e) => old(self)@.submit_attestation_error(
                    oracle,
                    market_id,
                    attestation_result,
                    auth.proven@,
                    now,
                ) == Some(e) && final(self)@ == old(self)@,
            },
    {
        if !auth.proves(oracle) {
            return Err(Error::NotAuthorized);
        }
        if !self.oracle_registered(oracle) {
            return Err(Error::NotRegistered);
        }
        let idx = match self.find_market(market_id) {
            Some(i) => i,
            None => {
                return Err(Error::MarketNotRegistered);
            },
        };
        if now < self.markets[idx].resolution_time {
            return Err(Error::TooEarly);
        }
        if attestation_result > 1 {
            return Err(Error::InvalidOutcome);
        }
        match find_attestation_in(&self.markets[idx].attestations, oracle) {
            Some(j) => {
                proof {
                    assert(self@.votes_of(market_id)[j as int].attestor == oracle);
                }
                return Err(Error::DuplicateVote);
            },
            None => {
                proof {
                    assert(!self@.has_attested(market_id, oracle));
                }
            },
        }
        let ghost pre = self@;
        let mut rec = self.markets.remove(idx);
        proof {
            assert(pre.market_inv(pre.markets[idx as int]));
            assert(rec@ == pre.markets[idx as int]);
        }
        rec.attestations.push(
            Attestation { attestor: oracle, outcome: attestation_result, timestamp: now },
        );
        if attestation_result == 1 {
            rec.yes_count = rec.yes_count + 1;
        } else {
            rec.no_count = rec.no_count + 1;
        }
        self.markets.insert(idx, rec);
        self.events.push(
            OracleEvent::AttestationSubmitted { market_id, oracle, outcome: attestation_result },
        );
        proof {
            let next = pre.submit_attestation_next(oracle, market_id, attestation_result, now);
            assert(self@.markets[idx as int] == next.markets[idx as int]);
            assert(self@.markets =~= next.markets);
            assert(self@.events =~= next.events);
            assert(self@ =~= next);
            pre.lemma_submit_attestation_next_inv(oracle, market_id, attestation_result, now);
        }
        Ok(())
    }

    /// The stored attestation of `oracle` on `market_id`, if any.
    pub fn get_attestation(&self, market_id: u64, oracle: u64) -> (r: Option<Attestation>)
        requires
            self.wf(),
        ensures
            r == self@.attestation_of(market_id, oracle),
    {
        match self.find_market(market_id) {
            Some(i) => {
                match find_attestation_in(&self.markets[i].attestations, oracle) {
                    Some(j) => {
                        proof {
                            self@.lemma_attestation_index(market_id, j as int);
                        }
                        Some(self.markets[i].attestations[j])
                    },
                    None => {
                        proof {
                            assert(!self@.has_attested(market_id, oracle));
                        }
                        None
                    },
                }
            },
            None => {
                proof {
                    assert(!self@.has_attested(market_id, oracle));
                }
                None
            },
        }
    }
}

} // verus!
