use vstd::prelude::*;

use crate::manager::OracleManager;
use crate::records::Attestation;
use crate::state::StateView;

verus! {

/// Number of YES votes in a ledger.
pub open spec fn yes_votes(s: Seq<Attestation>) -> nat
    decreases s.len(),
{
    if s.len() == 0 {
        0
    } else {
        yes_votes(s.drop_last()) + if s.last().outcome == 1 {
            1nat
        } else {
            0nat
        }
    }
}

/// Number of NO votes in a ledger (any stored outcome other than 1).
pub open spec fn no_votes(s: Seq<Attestation>) -> nat
    decreases s.len(),
{
    if s.len() == 0 {
        0
    } else {
        no_votes(s.drop_last()) + if s.last().outcome == 1 {
            0nat
        } else {
            1nat
        }
    }
}

impl StateView {
    /// The qualified-majority rule on a ledger: no consensus below the
    /// distinct-voter threshold; otherwise a side wins only when it reaches
    /// the threshold and strictly exceeds the other side. A tie at or above
    /// the threshold is deliberately no consensus.
    pub open spec fn consensus_of(votes: Seq<Attestation>, threshold: u32) -> (bool, u32) {
        if votes.len() < threshold {
            (false, 0)
        } else if yes_votes(votes) >= threshold && yes_votes(votes) > no_votes(votes) {
            (true, 1)
        } else if no_votes(votes) >= threshold && no_votes(votes) > yes_votes(votes) {
            (true, 0)
        } else {
            (false, 0)
        }
    }

    /// What `check_consensus` returns: a pure function of the market's ledger
    /// and the threshold, re-derived from the ledger rather than read from the
    /// running tally counters.
    pub open spec fn check_consensus_spec(self, market_id: u64) -> (bool, u32) {
        StateView::consensus_of(self.votes_of(market_id), self.required_consensus)
    }
}

impl OracleManager {
    /// Whether a qualified majority exists for the market, and its outcome.
    ///
    /// Read-only: calling it any number of times with no intervening write
    /// returns the same pair. The counts are re-derived by scanning the voter
    /// ledger (the source of truth), not read from the incremental tally
    /// counters, so a tally reset by market re-registration cannot skew it.
    pub fn check_consensus(&self, market_id: u64) -> (r: (bool, u32))
        requires
            self.wf(),
        ensures
            r == self@.check_consensus_spec(market_id),
    {
        let threshold = self.required_consensus;
        let mut yes: u32 = 0;
        let mut no: u32 = 0;
        let mut count: usize = 0;
        match self.find_market(market_id) {
            Some(i) => {
                let atts = &self.markets[i].attestations;
                proof {
                    assert(self@.market_inv(self@.markets[i as int]));
                    assert(self@.votes_of(market_id) == atts@);
                }
                let mut t: usize = 0;
                while t < atts.len()
                    invariant
                        t <= atts@.len(),
                        atts@.len() <= 10,
                        yes == yes_votes(atts@.take(t as int)),
                        no == no_votes(atts@.take(t as int)),
                        yes + no == t,
                    decreases atts@.len() - t,
                {
                    proof {
                        assert(atts@.take(t + 1).drop_last() =~= atts@.take(t as int));
                        assert(atts@.take(t + 1).last() == atts@[t as int]);
                    }
                    if atts[t].outcome == 1 {
                        yes = yes + 1;
                    } else {
                        no = no + 1;
                    }
                    t += 1;
                }
                proof {
                    assert(atts@.take(atts@.len() as int) =~= atts@);
                }
                count = atts.len();
            },
            None => {
                proof {
                    assert(self@.votes_of(market_id) =~= Seq::<Attestation>::empty());
                }
            },
        }
        if count < threshold as usize {
            return (false, 0);
        }
        if yes >= threshold && yes > no {
            (true, 1)
        } else if no >= threshold && no > yes {
            (true, 0)
        } else {
            (false, 0)
        }
    }

    /// The persisted final outcome for a market, if one has been written.
    ///
    /// Only the emergency override engine ever writes this value; there is no
    /// path that copies the evaluator's organic result into it, so a market
    /// that was never overridden has none.
    pub fn get_consensus_result(&self, market_id: u64) -> (r: Option<u32>)
        requires
            self.wf(),
        ensures
            r == self@.consensus_result_of(market_id),
    {
        match self.find_override(market_id) {
            Some(i) => Some(self.overrides[i].forced_outcome),
            None => None,
        }
    }
}

} // verus!
