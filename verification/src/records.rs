use vstd::prelude::*;

verus! {

/// One oracle's timestamped claim about a market's binary outcome.
///
/// Immutable once written; unique per (market, oracle).
#[derive(Clone, Copy, Debug, PartialEq, Eq, Structural)]
pub struct Attestation {
    pub attestor: u64,
    pub outcome: u32,
    pub timestamp: u64,
}

/// A single admin's approval of an emergency override.
///
/// Kept as part of the audit surface; the override record itself stores the
/// full approver list.
#[derive(Clone, Copy, Debug, PartialEq, Eq, Structural)]
pub struct OverrideApproval {
    pub admin: u64,
    pub timestamp: u64,
}

/// A registered reporter identity with its registration metadata.
///
/// The accuracy score starts at 100; no operation updates it yet (reputation
/// tracking is an open extension point).
#[derive(Debug, PartialEq, Eq)]
pub struct OracleRecord {
    pub identity: u64,
    pub name: String,
    pub accuracy: u32,
    pub registered_at: u64,
}

/// A registered market: its resolution time, the running tally counters, and
/// the per-market attestation ledger.
///
/// The ledger doubles as the ordered voter list: attestations are appended in
/// submission order and each one stores the submitting oracle. The counters
/// are incremented on submission and reset by (re-)registration, so after a
/// re-registration they can lag behind the ledger; the consensus evaluator
/// therefore re-derives its counts from the ledger alone.
#[derive(Debug, PartialEq, Eq)]
pub struct MarketRecord {
    pub market_id: u64,
    pub resolution_time: u64,
    pub yes_count: u32,
    pub no_count: u32,
    pub attestations: Vec<Attestation>,
}

/// Permanent per-market audit entry written by a successful emergency
/// override; a later override of the same market replaces it.
#[derive(Debug, PartialEq, Eq)]
pub struct EmergencyOverrideRecord {
    pub market_id: u64,
    pub forced_outcome: u32,
    pub justification_hash: u64,
    pub approvers: Vec<u64>,
    pub timestamp: u64,
}

/// Audit event appended by every state-changing operation.
#[derive(Debug, PartialEq, Eq)]
pub enum OracleEvent {
    OracleInitialized { admin: u64, required_consensus: u32 },
    OracleRegistered { oracle: u64, name: String, timestamp: u64 },
    MarketRegistered { market_id: u64, resolution_time: u64 },
    AttestationSubmitted { market_id: u64, oracle: u64, outcome: u32 },
    AdminSignerAdded { new_admin: u64 },
    RequiredSignaturesUpdated { required_signatures: u32 },
    OverrideCooldownUpdated { cooldown_seconds: u64 },
    EmergencyOverride {
        market_id: u64,
        forced_outcome: u32,
        justification_hash: u64,
        approvers: Vec<u64>,
        timestamp: u64,
    },
}

/// Mathematical model of an [`OracleRecord`].
pub struct OracleView {
    pub identity: u64,
    pub name: Seq<char>,
    pub accuracy: u32,
    pub registered_at: u64,
}

/// Mathematical model of a [`MarketRecord`].
pub struct MarketView {
    pub market_id: u64,
    pub resolution_time: u64,
    pub yes_count: u32,
    pub no_count: u32,
    pub attestations: Seq<Attestation>,
}

/// Mathematical model of an [`EmergencyOverrideRecord`].
pub struct OverrideView {
    pub market_id: u64,
    pub forced_outcome: u32,
    pub justification_hash: u64,
    pub approvers: Seq<u64>,
    pub timestamp: u64,
}

/// Mathematical model of an [`OracleEvent`].
pub enum EventView {
    OracleInitialized { admin: u64, required_consensus: u32 },
    OracleRegistered { oracle: u64, name: Seq<char>, timestamp: u64 },
    MarketRegistered { market_id: u64, resolution_time: u64 },
    AttestationSubmitted { market_id: u64, oracle: u64, outcome: u32 },
    AdminSignerAdded { new_admin: u64 },
    RequiredSignaturesUpdated { required_signatures: u32 },
    OverrideCooldownUpdated { cooldown_seconds: u64 },
    EmergencyOverride {
        market_id: u64,
        forced_outcome: u32,
        justification_hash: u64,
        approvers: Seq<u64>,
        timestamp: u64,
    },
}

impl View for OracleRecord {
    type V = OracleView;

    open spec fn view(&self) -> OracleView {
        OracleView {
            identity: self.identity,
            name: self.name@,
            accuracy: self.accuracy,
            registered_at: self.registered_at,
        }
    }
}

impl View for MarketRecord {
    type V = MarketView;

    open spec fn view(&self) -> MarketView {
        MarketView {
            market_id: self.market_id,
            resolution_time: self.resolution_time,
            yes_count: self.yes_count,
            no_count: self.no_count,
            attestations: self.attestations@,
        }
    }
}

impl View for EmergencyOverrideRecord {
    type V = OverrideView;

    open spec fn view(&self) -> OverrideView {
        OverrideView {
            market_id: self.market_id,
            forced_outcome: self.forced_outcome,
            justification_hash: self.justification_hash,
            approvers: self.approvers@,
            timestamp: self.timestamp,
        }
    }
}

impl View for OracleEvent {
    type V = EventView;

    open spec fn view(&self) -> EventView {
        match self {
            OracleEvent::OracleInitialized { admin, required_consensus } => {
                EventView::OracleInitialized {
                    admin: *admin,
                    required_consensus: *required_consensus,
                }
            },
            OracleEvent::OracleRegistered { oracle, name, timestamp } => {
                EventView::OracleRegistered {
                    oracle: *oracle,
                    name: name@,
                    timestamp: *timestamp,
                }
            },
            OracleEvent::MarketRegistered { market_id, resolution_time } => {
                EventView::MarketRegistered {
                    market_id: *market_id,
                    resolution_time: *resolution_time,
                }
            },
            OracleEvent::AttestationSubmitted { market_id, oracle, outcome } => {
                EventView::AttestationSubmitted {
                    market_id: *market_id,
                    oracle: *oracle,
                    outcome: *outcome,
                }
            },
            OracleEvent::AdminSignerAdded { new_admin } => {
                EventView::AdminSignerAdded { new_admin: *new_admin }
            },
            OracleEvent::RequiredSignaturesUpdated { required_signatures } => {
                EventView::RequiredSignaturesUpdated {
                    required_signatures: *required_signatures,
                }
            },
            OracleEvent::OverrideCooldownUpdated { cooldown_seconds } => {
                EventView::OverrideCooldownUpdated { cooldown_seconds: *cooldown_seconds }
            },
            OracleEvent::EmergencyOverride {
                market_id,
                forced_outcome,
                justification_hash,
                approvers,
                timestamp,
            } => {
                EventView::EmergencyOverride {
                    market_id: *market_id,
                    forced_outcome: *forced_outcome,
                    justification_hash: *justification_hash,
                    approvers: approvers@,
                    timestamp: *timestamp,
                }
            },
        }
    }
}

} // verus!
