use vstd::prelude::*;

use crate::consensus::{no_votes, yes_votes};
use crate::emergency::has_duplicate;
use crate::errors::Error;
use crate::records::Attestation;
use crate::state::StateView;

verus! {

/// Capacity law: every well-formed state holds at most 10 oracles, so no
/// sequence of successful registrations can exceed the bound.
pub proof fn lemma_oracle_capacity(s: StateView)
    requires
        s.inv(),
    ensures
        s.oracles.len() <= 10,
{
}

/// Capacity law, rejection half: with the registry full, a registration
/// attempt authenticated by the administrator fails with `RegistryFull`; by
/// `register_oracle`'s contract a failing call leaves the count unchanged.
pub proof fn lemma_registry_full_rejected(s: StateView, oracle: u64, proven: Seq<u64>)
    requires
        s.inv(),
        s.oracles.len() == 10,
        proven.contains(s.admin),
    ensures
        s.register_oracle_error(oracle, proven) == Some(Error::RegistryFull),
{
}

/// Duplicate-identity law: after a successful registration of `oracle`, any
/// further attempt to register the same identity fails — with
/// `AlreadyRegistered` as soon as the registry is not full — so by
/// `register_oracle`'s contract the registry size is unchanged by the failed
/// call.
pub proof fn lemma_duplicate_registration_rejected(
    s: StateView,
    oracle: u64,
    name: Seq<char>,
    now: u64,
    proven2: Seq<u64>,
)
    requires
        s.inv(),
        !s.is_oracle(oracle),
        proven2.contains(s.admin),
    ensures
        s.register_oracle_next(oracle, name, now).register_oracle_error(oracle, proven2)
            is Some,
        s.register_oracle_next(oracle, name, now).oracles.len() < 10
            ==> s.register_oracle_next(oracle, name, now).register_oracle_error(oracle, proven2)
            == Some(Error::AlreadyRegistered),
{
    let s1 = s.register_oracle_next(oracle, name, now);
    assert(s1.oracles[s.oracles.len() as int].identity == oracle);
    assert(s1.is_oracle(oracle));
}

/// Uniqueness law: in every well-formed state, a market's ledger holds at most
/// one attestation per oracle.
pub proof fn lemma_attestation_unique(s: StateView, market_id: u64, a: int, b: int)
    requires
        s.inv(),
        0 <= a < b < s.votes_of(market_id).len(),
    ensures
        s.votes_of(market_id)[a].attestor != s.votes_of(market_id)[b].attestor,
{
    if s.has_market(market_id) {
        let i = s.market_index(market_id);
        assert(s.market_inv(s.markets[i]));
    }
}

/// Uniqueness law, rejection half: after a successful submission, a second
/// submission by the same oracle on the same market fails, with any outcome,
/// any proof set and at any time; by `submit_attestation`'s contract the
/// failed call leaves tallies and the voter list unchanged.
pub proof fn lemma_second_attestation_rejected(
    s: StateView,
    oracle: u64,
    market_id: u64,
    outcome: u32,
    proven: Seq<u64>,
    now: u64,
    outcome2: u32,
    proven2: Seq<u64>,
    now2: u64,
)
    requires
        s.inv(),
        s.submit_attestation_error(oracle, market_id, outcome, proven, now) is None,
    ensures
        s.submit_attestation_next(oracle, market_id, outcome, now).submit_attestation_error(
            oracle,
            market_id,
            outcome2,
            proven2,
            now2,
        ) is Some,
{
    let s1 = s.submit_attestation_next(oracle, market_id, outcome, now);
    s.lemma_submit_attestation_next_inv(oracle, market_id, outcome, now);
    let i = s.market_index(market_id);
    assert(s1.markets[i].market_id == market_id);
    s1.lemma_market_index(i);
    let votes1 = s1.votes_of(market_id);
    assert(votes1 == s.markets[i].attestations.push(
        Attestation { attestor: oracle, outcome, timestamp: now },
    ));
    assert(votes1[votes1.len() - 1].attestor == oracle);
    assert(s1.has_attested(market_id, oracle));
}

/// Temporal gate law: with the identity proven, the oracle registered and the
/// market registered, a submission strictly before the resolution time fails
/// with `TooEarly` (and by contract mutates nothing); at or after the
/// resolution time, with a binary outcome and no earlier vote, it succeeds.
pub proof fn lemma_attestation_temporal_gate(
    s: StateView,
    oracle: u64,
    market_id: u64,
    outcome: u32,
    proven: Seq<u64>,
    now: u64,
    resolution_time: u64,
)
    requires
        s.inv(),
        proven.contains(oracle),
        s.is_oracle(oracle),
        s.resolution_time_of(market_id) == Some(resolution_time),
    ensures
        now < resolution_time ==> s.submit_attestation_error(
            oracle,
            market_id,
            outcome,
            proven,
            now,
        ) == Some(Error::TooEarly),
        now >= resolution_time && outcome <= 1 && !s.has_attested(market_id, oracle)
            ==> s.submit_attestation_error(oracle, market_id, outcome, proven, now) is None,
{
}

/// Idempotence law: the consensus evaluator is a pure function of the state,
/// so repeated calls with no intervening write return the same pair; this is
/// exactly what `check_consensus` ensures.
pub proof fn lemma_check_consensus_idempotent(s1: StateView, s2: StateView, market_id: u64)
    requires
        s1 == s2,
    ensures
        s1.check_consensus_spec(market_id) == s2.check_consensus_spec(market_id),
{
}

/// Tie law: when the YES and NO counts are equal, consensus is not reached —
/// even when both sides are at or above the threshold.
pub proof fn lemma_consensus_tie(votes: Seq<Attestation>, threshold: u32)
    requires
        yes_votes(votes) == no_votes(votes),
    ensures
        !StateView::consensus_of(votes, threshold).0,
        StateView::consensus_of(votes, threshold).1 == 0,
{
}

/// Multi-sig law: an override with a binary outcome still fails whenever the
/// approver list is too short, names an unproven or non-admin identity, or
/// lists an identity twice; by `emergency_override`'s contract the failed call
/// writes neither the persisted result nor the audit record.
pub proof fn lemma_override_approver_gate(
    s: StateView,
    approvers: Seq<u64>,
    market_id: u64,
    forced_outcome: u32,
    proven: Seq<u64>,
    now: u64,
)
    requires
        s.inv(),
        forced_outcome <= 1,
    ensures
        approvers.len() < s.required_signatures ==> s.emergency_override_error(
            approvers,
            market_id,
            forced_outcome,
            proven,
            now,
        ) == Some(Error::InsufficientApprovers),
        (exists|j: int|
            0 <= j < approvers.len() && !(proven.contains(#[trigger] approvers[j])
                && s.is_admin_signer(approvers[j]))) ==> s.emergency_override_error(
            approvers,
            market_id,
            forced_outcome,
            proven,
            now,
        ) is Some,
        has_duplicate(approvers) ==> s.emergency_override_error(
            approvers,
            market_id,
            forced_outcome,
            proven,
            now,
        ) is Some,
{
    if exists|j: int|
        0 <= j < approvers.len() && !(proven.contains(#[trigger] approvers[j])
            && s.is_admin_signer(approvers[j])) {
        let j = choose|j: int|
            0 <= j < approvers.len() && !(proven.contains(#[trigger] approvers[j])
                && s.is_admin_signer(approvers[j]));
        s.lemma_approver_check_fail(approvers, proven, j);
    }
}

/// Global cooldown law: after a successful override at time `t1 > 0`, a
/// second override attempt at `t2` whose outcome, approvers and proofs are all
/// valid fails with `CooldownActive` whenever `t2 - t1` is below the cooldown
/// — whichever market it targets — and succeeds once `t2 - t1` reaches the
/// cooldown, provided its market is registered.
pub proof fn lemma_override_cooldown(
    s: StateView,
    approvers: Seq<u64>,
    market_a: u64,
    outcome: u32,
    justification_hash: u64,
    t1: u64,
    approvers2: Seq<u64>,
    market_b: u64,
    outcome2: u32,
    proven2: Seq<u64>,
    t2: u64,
)
    requires
        s.inv(),
        t1 > 0,
        t2 >= t1,
        outcome2 <= 1,
        approvers2.len() >= s.required_signatures,
        s.emergency_override_next(
            approvers,
            market_a,
            outcome,
            justification_hash,
            t1,
        ).approver_check(approvers2, proven2) is None,
        !has_duplicate(approvers2),
    ensures
        t2 - t1 < s.override_cooldown ==> s.emergency_override_next(
            approvers,
            market_a,
            outcome,
            justification_hash,
            t1,
        ).emergency_override_error(approvers2, market_b, outcome2, proven2, t2) == Some(
            Error::CooldownActive,
        ),
        t2 - t1 >= s.override_cooldown && s.has_market(market_b) ==> s.emergency_override_next(
            approvers,
            market_a,
            outcome,
            justification_hash,
            t1,
        ).emergency_override_error(approvers2, market_b, outcome2, proven2, t2) is None,
{
    let s1 = s.emergency_override_next(approvers, market_a, outcome, justification_hash, t1);
    assert(s1.last_override_time == t1);
    assert(s1.override_cooldown == s.override_cooldown);
    assert(s1.required_signatures == s.required_signatures);
    assert(s1.markets == s.markets);
}

/// Supremacy law: a successful override force-sets the market's persisted
/// result and marks it manually overridden, replacing any earlier override of
/// the same market and winning over any organic consensus (the evaluator never
/// writes the persisted result at all); overrides of other markets are
/// untouched.
pub proof fn lemma_override_overwrites(
    s: StateView,
    approvers: Seq<u64>,
    market_id: u64,
    forced_outcome: u32,
    justification_hash: u64,
    now: u64,
)
    requires
        s.inv(),
    ensures
        s.emergency_override_next(
            approvers,
            market_id,
            forced_outcome,
            justification_hash,
            now,
        ).consensus_result_of(market_id) == Some(forced_outcome),
        s.emergency_override_next(
            approvers,
            market_id,
            forced_outcome,
            justification_hash,
            now,
        ).is_manual(market_id),
        forall|m: u64|
            m != market_id ==> s.emergency_override_next(
                approvers,
                market_id,
                forced_outcome,
                justification_hash,
                now,
            ).override_of(m) == s.override_of(m),
{
    let s1 = s.emergency_override_next(approvers, market_id, forced_outcome, justification_hash, now);
    s.lemma_emergency_override_next_inv(
        approvers,
        market_id,
        forced_outcome,
        justification_hash,
        now,
    );
    if s.is_manual(market_id) {
        let i = s.override_index(market_id);
        assert(s1.overrides[i].market_id == market_id);
        s1.lemma_override_index(i);
    } else {
        let i = s.overrides.len() as int;
        assert(s1.overrides[i].market_id == market_id);
        s1.lemma_override_index(i);
    }
    assert forall|m: u64| m != market_id implies s1.override_of(m) == s.override_of(m) by {
        if s.is_manual(m) {
            let w = s.override_index(m);
            assert(0 <= w < s.overrides.len() && s.overrides[w].market_id == m);
            s.lemma_override_index(w);
            assert(s1.overrides[w] == s.overrides[w]);
            s1.lemma_override_index(w);
        } else {
            assert forall|j: int| 0 <= j < s1.overrides.len() implies (#[trigger] s1.overrides[j]).market_id
                != m by {
                if s.is_manual(market_id) {
                    if j == s.override_index(market_id) {
                    } else {
                        assert(s1.overrides[j] == s.overrides[j]);
                        assert(!s.is_manual(m));
                    }
                } else {
                    if j < s.overrides.len() {
                        assert(s1.overrides[j] == s.overrides[j]);
                    }
                }
            }
            assert(!s1.is_manual(m));
        }
    }
}

/// Permanence law: a market once manually overridden stays so under every
/// operation — the five non-override transitions leave the override ledger
/// untouched, and an override only adds or replaces records.
pub proof fn lemma_manual_override_permanent(
    s: StateView,
    m: u64,
    oracle: u64,
    name: Seq<char>,
    market_id: u64,
    resolution_time: u64,
    outcome: u32,
    new_admin: u64,
    required_sigs: u32,
    cooldown_seconds: u64,
    approvers: Seq<u64>,
    forced_outcome: u32,
    justification_hash: u64,
    now: u64,
)
    requires
        s.inv(),
        s.is_manual(m),
    ensures
        s.register_oracle_next(oracle, name, now).is_manual(m),
        s.register_market_next(market_id, resolution_time).is_manual(m),
        s.submit_attestation_next(oracle, market_id, outcome, now).is_manual(m),
        s.add_admin_signer_next(new_admin).is_manual(m),
        s.set_required_signatures_next(required_sigs).is_manual(m),
        s.set_override_cooldown_next(cooldown_seconds).is_manual(m),
        s.emergency_override_next(
            approvers,
            market_id,
            forced_outcome,
            justification_hash,
            now,
        ).is_manual(m),
{
    lemma_is_manual_same_overrides(s, s.register_oracle_next(oracle, name, now), m);
    lemma_is_manual_same_overrides(s, s.register_market_next(market_id, resolution_time), m);
    lemma_is_manual_same_overrides(
        s,
        s.submit_attestation_next(oracle, market_id, outcome, now),
        m,
    );
    lemma_is_manual_same_overrides(s, s.add_admin_signer_next(new_admin), m);
    lemma_is_manual_same_overrides(s, s.set_required_signatures_next(required_sigs), m);
    lemma_is_manual_same_overrides(s, s.set_override_cooldown_next(cooldown_seconds), m);
    lemma_override_overwrites(s, approvers, market_id, forced_outcome, justification_hash, now);
    if m != market_id {
        let s1 = s.emergency_override_next(
            approvers,
            market_id,
            forced_outcome,
            justification_hash,
            now,
        );
        assert(s1.override_of(m) == s.override_of(m));
        assert(s.override_of(m) is Some);
    }
}

/// Two states with the same override ledger mark the same markets manual.
proof fn lemma_is_manual_same_overrides(s: StateView, t: StateView, m: u64)
    requires
        s.is_manual(m),
        t.overrides == s.overrides,
    ensures
        t.is_manual(m),
{
    let w = choose|i: int|
        0 <= i < s.overrides.len() && (#[trigger] s.overrides[i]).market_id == m;
    assert(t.overrides[w].market_id == m);
}

} // verus!
