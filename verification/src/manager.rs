use vstd::prelude::*;

use crate::auth::AuthContext;
use crate::errors::Error;
use crate::records::{EmergencyOverrideRecord, MarketRecord, OracleEvent, OracleRecord};
use crate::state::StateView;

verus! {

/// The oracle consensus engine: one explicit state object constructed at
/// genesis by [`OracleManager::initialize`] and handed to every operation.
///
/// The host executes each operation as one atomic, serialized transaction; the
/// engine itself holds no clock and checks no cryptographic proofs. Time
/// enters as a `now` argument and authentication as an [`AuthContext`].
///
/// Deregistration, dispute/challenge handling, reputation updates and dynamic
/// consensus thresholds are open extension points: no operation removes an
/// oracle or an admin signer, updates an accuracy score, or changes
/// `required_consensus` after initialization.
pub struct OracleManager {
    pub admin: u64,
    pub required_consensus: u32,
    pub oracles: Vec<OracleRecord>,
    pub markets: Vec<MarketRecord>,
    pub admin_signers: Vec<u64>,
    pub required_signatures: u32,
    pub override_cooldown: u64,
    pub last_override_time: u64,
    pub overrides: Vec<EmergencyOverrideRecord>,
    pub events: Vec<OracleEvent>,
}

impl View for OracleManager {
    type V = StateView;

    open spec fn view(&self) -> StateView {
        StateView {
            admin: self.admin,
            required_consensus: self.required_consensus,
            oracles: self.oracles@.map_values(|o: OracleRecord| o@),
            markets: self.markets@.map_values(|m: MarketRecord| m@),
            admin_signers: self.admin_signers@,
            required_signatures: self.required_signatures,
            override_cooldown: self.override_cooldown,
            last_override_time: self.last_override_time,
            overrides: self.overrides@.map_values(|r: EmergencyOverrideRecord| r@),
            events: self.events@.map_values(|e: OracleEvent| e@),
        }
    }
}

impl OracleManager {
    /// Well-formedness: the model invariant holds. Established by
    /// `initialize` and preserved by every operation.
    pub open spec fn wf(self) -> bool {
        self@.inv()
    }

    /// Create the engine. The initial administrator must prove control of
    /// their identity; the admin signer set starts as that single identity,
    /// with two required signatures and a 24-hour override cooldown.
    pub fn initialize(admin: u64, required_consensus: u32, auth: &AuthContext) -> (r: Result<
        OracleManager,
        Error,
    >)
        ensures
            match r {
                Ok(m) => auth.proves_spec(admin) && m@ == StateView::initial_state(
                    admin,
                    required_consensus,
                ) && m.wf(),
                Err(e) => e == Error::NotAuthorized && !auth.proves_spec(admin),
            },
    {
        if !auth.proves(admin) {
            return Err(Error::NotAuthorized);
        }
        let mut admin_signers: Vec<u64> = Vec::new();
        admin_signers.push(admin);
        let mut events: Vec<OracleEvent> = Vec::new();
        events.push(OracleEvent::OracleInitialized { admin, required_consensus });
        let m = OracleManager {
            admin,
            required_consensus,
            oracles: Vec::new(),
            markets: Vec::new(),
            admin_signers,
            required_signatures: crate::state::DEFAULT_REQUIRED_SIGNATURES,
            override_cooldown: crate::state::DEFAULT_OVERRIDE_COOLDOWN,
            last_override_time: 0,
            overrides: Vec::new(),
            events,
        };
        proof {
            let init = StateView::initial_state(admin, required_consensus);
            assert(m@.oracles =~= init.oracles);
            assert(m@.markets =~= init.markets);
            assert(m@.admin_signers =~= init.admin_signers);
            assert(m@.overrides =~= init.overrides);
            assert(m@.events =~= init.events);
            assert(m@ =~= init);
            StateView::lemma_initial_state_inv(admin, required_consensus);
        }
        Ok(m)
    }

    /// Current admin signer list, in insertion order.
    pub fn get_admin_signers(&self) -> (r: Vec<u64>)
        ensures
            r@ == self@.admin_signers,
    {
        copy_u64_vec(&self.admin_signers)
    }

    /// Distinct approvers an emergency override currently needs.
    pub fn get_required_signatures(&self) -> (r: u32)
        ensures
            r == self@.required_signatures,
    {
        self.required_signatures
    }

    /// Current override cooldown in seconds.
    pub fn get_override_cooldown(&self) -> (r: u64)
        ensures
            r == self@.override_cooldown,
    {
        self.override_cooldown
    }

    /// Time of the last successful override on any market; 0 if none yet.
    pub fn get_last_override_time(&self) -> (r: u64)
        ensures
            r == self@.last_override_time,
    {
        self.last_override_time
    }

    /// Whether `identity` is a registered oracle.
    pub(crate) fn oracle_registered(&self, identity: u64) -> (b: bool)
        ensures
            b == self@.is_oracle(identity),
    {
        let mut i: usize = 0;
        while i < self.oracles.len()
            invariant
                i <= self.oracles.len(),
                forall|j: int| 0 <= j < i ==> (#[trigger] self@.oracles[j]).identity != identity,
            decreases self.oracles.len() - i,
        {
            if self.oracles[i].identity == identity {
                assert(self@.oracles[i as int].identity == identity);
                return true;
            }
            i += 1;
        }
        false
    }

    /// Index of the market record for `market_id`, if registered.
    pub(crate) fn find_market(&self, market_id: u64) -> (r: Option<usize>)
        requires
            self.wf(),
        ensures
            match r {
                Some(i) => i < self.markets@.len() && self@.markets[i as int].market_id == market_id
                    && self@.has_market(market_id) && self@.market_index(market_id) == i,
                None => !self@.has_market(market_id),
            },
    {
        let mut i: usize = 0;
        while i < self.markets.len()
            invariant
                self.wf(),
                i <= self.markets.len(),
                forall|j: int| 0 <= j < i ==> (#[trigger] self@.markets[j]).market_id != market_id,
            decreases self.markets.len() - i,
        {
            if self.markets[i].market_id == market_id {
                proof {
                    self@.lemma_market_index(i as int);
                }
                return Some(i);
            }
            i += 1;
        }
        None
    }

    /// Index of the override record for `market_id`, if any.
    pub(crate) fn find_override(&self, market_id: u64) -> (r: Option<usize>)
        requires
            self.wf(),
        ensures
            match r {
                Some(i) => i < self.overrides@.len() && self@.overrides[i as int].market_id
                    == market_id && self@.is_manual(market_id) && self@.override_index(market_id)
                    == i,
                None => !self@.is_manual(market_id),
            },
    {
        let mut i: usize = 0;
        while i < self.overrides.len()
            invariant
                self.wf(),
                i <= self.overrides.len(),
                forall|j: int|
                    0 <= j < i ==> (#[trigger] self@.overrides[j]).market_id != market_id,
            decreases self.overrides.len() - i,
        {
            if self.overrides[i].market_id == market_id {
                proof {
                    self@.lemma_override_index(i as int);
                }
                return Some(i);
            }
            i += 1;
        }
        None
    }
}

/// Whether `x` occurs in `v`.
pub(crate) fn contains_u64(v: &Vec<u64>, x: u64) -> (b: bool)
    ensures
        b == v@.contains(x),
{
    let mut i: usize = 0;
    while i < v.len()
        invariant
            i <= v.len(),
            forall|j: int| 0 <= j < i ==> v@[j] != x,
        decreases v.len() - i,
    {
        if v[i] == x {
            return true;
        }
        i += 1;
    }
    false
}

/// An element-for-element copy of `v`.
pub(crate) fn copy_u64_vec(v: &Vec<u64>) -> (r: Vec<u64>)
    ensures
        r@ == v@,
{
    let mut r: Vec<u64> = Vec::new();
    let mut i: usize = 0;
    while i < v.len()
        invariant
            i <= v.len(),
            r@ == v@.take(i as int),
        decreases v.len() - i,
    {
        r.push(v[i]);
        proof {
            assert(v@.take(i + 1 as int) =~= v@.take(i as int).push(v@[i as int]));
        }
        i += 1;
    }
    proof {
        assert(v@.take(v@.len() as int) =~= v@);
    }
    r
}

} // verus!
