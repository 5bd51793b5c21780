use vstd::prelude::*;

use crate::records::{Attestation, EventView, MarketView, OracleView, OverrideView};

verus! {

/// Capacity bound of the oracle registry.
pub const MAX_ORACLES: usize = 10;

/// Accuracy score given to every oracle at registration.
pub const INITIAL_ACCURACY: u32 = 100;

/// Required signature count fixed at initialization.
pub const DEFAULT_REQUIRED_SIGNATURES: u32 = 2;

/// Override cooldown fixed at initialization, in seconds.
pub const DEFAULT_OVERRIDE_COOLDOWN: u64 = 86400;

/// Smallest cooldown an admin may configure, in seconds.
pub const MIN_OVERRIDE_COOLDOWN: u64 = 3600;

/// Mathematical model of the whole engine state.
///
/// Every operation of [`crate::manager::OracleManager`] is specified as a pure
/// function on this model: an error function saying which reason code (if any)
/// the call returns, and a successor function giving the state after a
/// successful call.
#[verifier::ext_equal]
pub struct StateView {
    /// The administrator fixed at initialization; sole authority for
    /// registering oracles and markets.
    pub admin: u64,
    /// Distinct-voter threshold the consensus evaluator compares against.
    pub required_consensus: u32,
    /// Registered reporter identities, in registration order.
    pub oracles: Seq<OracleView>,
    /// Registered markets, in first-registration order.
    pub markets: Seq<MarketView>,
    /// Admin signers for the multi-sig override, in insertion order.
    pub admin_signers: Seq<u64>,
    /// Distinct approvers an emergency override needs.
    pub required_signatures: u32,
    /// Minimum seconds between successive overrides, across all markets.
    pub override_cooldown: u64,
    /// Time of the last successful override on any market; 0 means none yet.
    pub last_override_time: u64,
    /// Per-market override audit entries; at most one per market.
    pub overrides: Seq<OverrideView>,
    /// Append-only audit log of every state-changing operation.
    pub events: Seq<EventView>,
}

impl StateView {
    /// The state fixed by initialization.
    pub open spec fn initial_state(admin: u64, required_consensus: u32) -> StateView {
        StateView {
            admin,
            required_consensus,
            oracles: Seq::empty(),
            markets: Seq::empty(),
            admin_signers: seq![admin],
            required_signatures: DEFAULT_REQUIRED_SIGNATURES,
            override_cooldown: DEFAULT_OVERRIDE_COOLDOWN,
            last_override_time: 0,
            overrides: Seq::empty(),
            events: seq![EventView::OracleInitialized { admin, required_consensus }],
        }
    }

    pub open spec fn oracle_ids(self) -> Seq<u64> {
        self.oracles.map_values(|o: OracleView| o.identity)
    }

    pub open spec fn is_oracle(self, identity: u64) -> bool {
        exists|i: int|
            0 <= i < self.oracles.len() && (#[trigger] self.oracles[i]).identity == identity
    }

    pub open spec fn has_market(self, market_id: u64) -> bool {
        exists|i: int|
            0 <= i < self.markets.len() && (#[trigger] self.markets[i]).market_id == market_id
    }

    /// Index of the market record for `market_id`; meaningful only when
    /// `has_market` holds, and then unique under `inv`.
    pub open spec fn market_index(self, market_id: u64) -> int {
        choose|i: int|
            0 <= i < self.markets.len() && (#[trigger] self.markets[i]).market_id == market_id
    }

    pub open spec fn market_of(self, market_id: u64) -> Option<MarketView> {
        if self.has_market(market_id) {
            Some(self.markets[self.market_index(market_id)])
        } else {
            None
        }
    }

    pub open spec fn resolution_time_of(self, market_id: u64) -> Option<u64> {
        match self.market_of(market_id) {
            Some(m) => Some(m.resolution_time),
            None => None,
        }
    }

    /// The running (yes, no) tally counters; (0, 0) for an unknown market.
    pub open spec fn counts_of(self, market_id: u64) -> (u32, u32) {
        match self.market_of(market_id) {
            Some(m) => (m.yes_count, m.no_count),
            None => (0, 0),
        }
    }

    /// The market's attestation ledger (its ordered voter list); empty for an
    /// unknown market.
    pub open spec fn votes_of(self, market_id: u64) -> Seq<Attestation> {
        match self.market_of(market_id) {
            Some(m) => m.attestations,
            None => Seq::empty(),
        }
    }

    pub open spec fn has_attested(self, market_id: u64, oracle: u64) -> bool {
        exists|i: int|
            0 <= i < self.votes_of(market_id).len() && (#[trigger] self.votes_of(market_id)[i]).attestor
                == oracle
    }

    /// Index of `oracle`'s attestation in the market's ledger; meaningful only
    /// when `has_attested` holds, and then unique under `inv`.
    pub open spec fn attestation_index(self, market_id: u64, oracle: u64) -> int {
        choose|i: int|
            0 <= i < self.votes_of(market_id).len() && (#[trigger] self.votes_of(market_id)[i]).attestor
                == oracle
    }

    pub open spec fn attestation_of(self, market_id: u64, oracle: u64) -> Option<Attestation> {
        if self.has_attested(market_id, oracle) {
            Some(self.votes_of(market_id)[self.attestation_index(market_id, oracle)])
        } else {
            None
        }
    }

    pub open spec fn is_admin_signer(self, identity: u64) -> bool {
        self.admin_signers.contains(identity)
    }

    /// Whether the market's outcome has been force-set by an override.
    pub open spec fn is_manual(self, market_id: u64) -> bool {
        exists|i: int|
            0 <= i < self.overrides.len() && (#[trigger] self.overrides[i]).market_id == market_id
    }

    /// Index of the market's override record; meaningful only when `is_manual`
    /// holds, and then unique under `inv`.
    pub open spec fn override_index(self, market_id: u64) -> int {
        choose|i: int|
            0 <= i < self.overrides.len() && (#[trigger] self.overrides[i]).market_id == market_id
    }

    pub open spec fn override_of(self, market_id: u64) -> Option<OverrideView> {
        if self.is_manual(market_id) {
            Some(self.overrides[self.override_index(market_id)])
        } else {
            None
        }
    }

    /// The persisted per-market outcome. Written only by the override engine;
    /// the consensus evaluator never populates it.
    pub open spec fn consensus_result_of(self, market_id: u64) -> Option<u32> {
        match self.override_of(market_id) {
            Some(r) => Some(r.forced_outcome),
            None => None,
        }
    }

    /// Whether the global cooldown still blocks an override at time `now`.
    ///
    /// `last_override_time == 0` means no override has happened yet, so
    /// nothing is blocked. Time is monotonic, so `now` is never smaller than
    /// `last_override_time`; the formulation over unbounded integers also
    /// counts a `now` before the last override as blocked.
    pub open spec fn cooldown_blocked(self, now: u64) -> bool {
        self.last_override_time > 0 && (now as int) < self.last_override_time
            + self.override_cooldown
    }

    /// Well-formedness of one market record within this state.
    pub open spec fn market_inv(self, m: MarketView) -> bool {
        &&& m.attestations.len() <= MAX_ORACLES
        &&& forall|i: int, j: int|
            #![trigger m.attestations[i], m.attestations[j]]
            0 <= i < j < m.attestations.len() ==> m.attestations[i].attestor
                != m.attestations[j].attestor
        &&& forall|i: int|
            0 <= i < m.attestations.len() ==> (#[trigger] m.attestations[i]).outcome <= 1
        &&& forall|i: int|
            0 <= i < m.attestations.len() ==> self.is_oracle(
                (#[trigger] m.attestations[i]).attestor,
            )
        &&& m.yes_count + m.no_count <= m.attestations.len()
    }

    /// State invariant: established by initialization and preserved by every
    /// operation.
    pub open spec fn inv(self) -> bool {
        &&& self.oracles.len() <= MAX_ORACLES
        &&& forall|i: int, j: int|
            #![trigger self.oracles[i], self.oracles[j]]
            0 <= i < j < self.oracles.len() ==> self.oracles[i].identity
                != self.oracles[j].identity
        &&& forall|i: int, j: int|
            #![trigger self.markets[i], self.markets[j]]
            0 <= i < j < self.markets.len() ==> self.markets[i].market_id
                != self.markets[j].market_id
        &&& forall|k: int|
            0 <= k < self.markets.len() ==> self.market_inv(#[trigger] self.markets[k])
        &&& self.admin_signers.len() >= 1
        &&& forall|i: int, j: int|
            #![trigger self.admin_signers[i], self.admin_signers[j]]
            0 <= i < j < self.admin_signers.len() ==> self.admin_signers[i]
                != self.admin_signers[j]
        &&& self.required_signatures >= 1
        &&& self.override_cooldown >= MIN_OVERRIDE_COOLDOWN
        &&& forall|i: int, j: int|
            #![trigger self.overrides[i], self.overrides[j]]
            0 <= i < j < self.overrides.len() ==> self.overrides[i].market_id
                != self.overrides[j].market_id
    }

    /// Under `inv`, the market record at index `i` is the one `market_of`
    /// returns for its id.
    pub proof fn lemma_market_index(self, i: int)
        requires
            self.inv(),
            0 <= i < self.markets.len(),
        ensures
            self.has_market(self.markets[i].market_id),
            self.market_index(self.markets[i].market_id) == i,
            self.market_of(self.markets[i].market_id) == Some(self.markets[i]),
    {
        let mid = self.markets[i].market_id;
        assert(self.has_market(mid));
        let j = self.market_index(mid);
        assert(0 <= j < self.markets.len() && self.markets[j].market_id == mid);
        if i < j {
            assert(self.markets[i].market_id != self.markets[j].market_id);
        } else if j < i {
            assert(self.markets[j].market_id != self.markets[i].market_id);
        }
    }

    /// Under `inv`, the override record at index `i` is the one `override_of`
    /// returns for its market id.
    pub proof fn lemma_override_index(self, i: int)
        requires
            self.inv(),
            0 <= i < self.overrides.len(),
        ensures
            self.is_manual(self.overrides[i].market_id),
            self.override_index(self.overrides[i].market_id) == i,
            self.override_of(self.overrides[i].market_id) == Some(self.overrides[i]),
    {
        let mid = self.overrides[i].market_id;
        assert(self.is_manual(mid));
        let j = self.override_index(mid);
        assert(0 <= j < self.overrides.len() && self.overrides[j].market_id == mid);
        if i < j {
            assert(self.overrides[i].market_id != self.overrides[j].market_id);
        } else if j < i {
            assert(self.overrides[j].market_id != self.overrides[i].market_id);
        }
    }

    /// Within a well-formed market, the attestation at index `i` is the one
    /// `attestation_of` returns for its attestor.
    pub proof fn lemma_attestation_index(self, market_id: u64, i: int)
        requires
            self.inv(),
            self.has_market(market_id),
            0 <= i < self.votes_of(market_id).len(),
        ensures
            self.has_attested(market_id, self.votes_of(market_id)[i].attestor),
            self.attestation_index(market_id, self.votes_of(market_id)[i].attestor) == i,
            self.attestation_of(market_id, self.votes_of(market_id)[i].attestor) == Some(
                self.votes_of(market_id)[i],
            ),
    {
        let votes = self.votes_of(market_id);
        let o = votes[i].attestor;
        let k = self.market_index(market_id);
        assert(self.market_inv(self.markets[k]));
        assert(self.has_attested(market_id, o));
        let j = self.attestation_index(market_id, o);
        assert(0 <= j < votes.len() && votes[j].attestor == o);
        if i < j {
            assert(votes[i].attestor != votes[j].attestor);
        } else if j < i {
            assert(votes[j].attestor != votes[i].attestor);
        }
    }

    /// The initial state satisfies the invariant.
    pub proof fn lemma_initial_state_inv(admin: u64, required_consensus: u32)
        ensures
            StateView::initial_state(admin, required_consensus).inv(),
    {
    }
}

} // verus!
