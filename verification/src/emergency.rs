use vstd::prelude::*;

use crate::auth::AuthContext;
use crate::errors::Error;
use crate::manager::{contains_u64, copy_u64_vec, OracleManager};
use crate::records::{EmergencyOverrideRecord, EventView, OracleEvent, OverrideView};
use crate::state::StateView;

verus! {

/// Whether any identity appears more than once in `s`.
pub open spec fn has_duplicate(s: Seq<u64>) -> bool {
    exists|i: int, j: int| 0 <= i < j < s.len() && s[i] == s[j]
}

impl StateView {
    /// The per-approver gate, in list order: each approver must have proven
    /// control (co-signature semantics) and be a current admin signer; the
    /// first approver failing either check decides the reason code.
    pub open spec fn approver_check(self, approvers: Seq<u64>, proven: Seq<u64>) -> Option<Error>
        decreases approvers.len(),
    {
        if approvers.len() == 0 {
            None
        } else if !proven.contains(approvers[0]) {
            Some(Error::NotAuthorized)
        } else if !self.is_admin_signer(approvers[0]) {
            Some(Error::InvalidApprover)
        } else {
            self.approver_check(approvers.drop_first(), proven)
        }
    }

    /// Which reason code `emergency_override` returns, if any: the first
    /// failing check in gate order (binary outcome, approver count, approver
    /// validity, approver distinctness, global cooldown, market registration).
    pub open spec fn emergency_override_error(
        self,
        approvers: Seq<u64>,
        market_id: u64,
        forced_outcome: u32,
        proven: Seq<u64>,
        now: u64,
    ) -> Option<Error> {
        if forced_outcome > 1 {
            Some(Error::InvalidOutcome)
        } else if approvers.len() < self.required_signatures {
            Some(Error::InsufficientApprovers)
        } else if self.approver_check(approvers, proven) is Some {
            self.approver_check(approvers, proven)
        } else if has_duplicate(approvers) {
            Some(Error::DuplicateApprover)
        } else if self.cooldown_blocked(now) {
            Some(Error::CooldownActive)
        } else if !self.has_market(market_id) {
            Some(Error::MarketNotRegistered)
        } else {
            None
        }
    }

    /// State after a successful `emergency_override`: the market's persisted
    /// outcome is force-set (replacing any earlier override record for the
    /// market), the global override clock advances to `now`, and the event is
    /// logged.
    pub open spec fn emergency_override_next(
        self,
        approvers: Seq<u64>,
        market_id: u64,
        forced_outcome: u32,
        justification_hash: u64,
        now: u64,
    ) -> StateView {
        let rec = OverrideView { market_id, forced_outcome, justification_hash, approvers, timestamp: now };
        let overrides = if self.is_manual(market_id) {
            self.overrides.update(self.override_index(market_id), rec)
        } else {
            self.overrides.push(rec)
        };
        StateView {
            overrides,
            last_override_time: now,
            events: self.events.push(
                EventView::EmergencyOverride {
                    market_id,
                    forced_outcome,
                    justification_hash,
                    approvers,
                    timestamp: now,
                },
            ),
            ..self
        }
    }

    /// Once the first `k` approvers are proven admin signers, the verdict on
    /// the whole list is the verdict on the remainder.
    pub proof fn lemma_approver_check_prefix(self, approvers: Seq<u64>, proven: Seq<u64>, k: int)
        requires
            0 <= k <= approvers.len(),
            forall|j: int|
                0 <= j < k ==> proven.contains(#[trigger] approvers[j]) && self.is_admin_signer(
                    approvers[j],
                ),
        ensures
            self.approver_check(approvers, proven) == self.approver_check(
                approvers.skip(k),
                proven,
            ),
        decreases k,
    {
        if k > 0 {
            let rest = approvers.drop_first();
            assert(proven.contains(approvers[0]) && self.is_admin_signer(approvers[0]));
            assert forall|j: int|
                0 <= j < k - 1 implies proven.contains(#[trigger] rest[j]) && self.is_admin_signer(
                rest[j],
            ) by {
                assert(rest[j] == approvers[j + 1]);
            }
            self.lemma_approver_check_prefix(rest, proven, k - 1);
            assert(rest.skip(k - 1) =~= approvers.skip(k));
        } else {
            assert(approvers.skip(0) =~= approvers);
        }
    }

    /// A verdict of `None` means every approver has proven control and is an
    /// admin signer.
    pub proof fn lemma_approver_check_pass(self, approvers: Seq<u64>, proven: Seq<u64>)
        requires
            self.approver_check(approvers, proven) is None,
        ensures
            forall|j: int|
                0 <= j < approvers.len() ==> proven.contains(#[trigger] approvers[j])
                    && self.is_admin_signer(approvers[j]),
        decreases approvers.len(),
    {
        if approvers.len() > 0 {
            let rest = approvers.drop_first();
            self.lemma_approver_check_pass(rest, proven);
            assert forall|j: int|
                0 <= j < approvers.len() implies proven.contains(#[trigger] approvers[j])
                && self.is_admin_signer(approvers[j]) by {
                if j > 0 {
                    assert(rest[j - 1] == approvers[j]);
                    assert(proven.contains(rest[j - 1]) && self.is_admin_signer(rest[j - 1]));
                }
            }
        }
    }

    /// One unproven or non-admin approver forces a `Some` verdict.
    pub proof fn lemma_approver_check_fail(self, approvers: Seq<u64>, proven: Seq<u64>, j: int)
        requires
            0 <= j < approvers.len(),
            !proven.contains(approvers[j]) || !self.is_admin_signer(approvers[j]),
        ensures
            self.approver_check(approvers, proven) is Some,
        decreases approvers.len(),
    {
        if self.approver_check(approvers, proven) is None {
            self.lemma_approver_check_pass(approvers, proven);
        }
    }

    /// A successful override preserves the state invariant.
    pub proof fn lemma_emergency_override_next_inv(
        self,
        approvers: Seq<u64>,
        market_id: u64,
        forced_outcome: u32,
        justification_hash: u64,
        now: u64,
    )
        requires
            self.inv(),
        ensures
            self.emergency_override_next(
                approvers,
                market_id,
                forced_outcome,
                justification_hash,
                now,
            ).inv(),
    {
        let post = self.emergency_override_next(
            approvers,
            market_id,
            forced_outcome,
            justification_hash,
            now,
        );
        if self.is_manual(market_id) {
            let i = self.override_index(market_id);
            assert(0 <= i < self.overrides.len() && self.overrides[i].market_id == market_id);
            assert forall|a: int, b: int|
                #![trigger post.overrides[a], post.overrides[b]]
                0 <= a < b < post.overrides.len() implies post.overrides[a].market_id
                != post.overrides[b].market_id by {
                assert(self.overrides[a].market_id != self.overrides[b].market_id);
            }
        } else {
            assert forall|a: int, b: int|
                #![trigger post.overrides[a], post.overrides[b]]
                0 <= a < b < post.overrides.len() implies post.overrides[a].market_id
                != post.overrides[b].market_id by {
                if b < self.overrides.len() {
                    assert(self.overrides[a].market_id != self.overrides[b].market_id);
                } else {
                    assert(post.overrides[b].market_id == market_id);
                    assert(self.overrides[a].market_id != market_id);
                }
            }
        }
        self.lemma_same_markets_inv(post);
    }
}

/// Whether any identity appears more than once in `v`.
pub(crate) fn find_duplicate_u64(v: &Vec<u64>) -> (b: bool)
    ensures
        b == has_duplicate(v@),
{
    let mut i: usize = 0;
    while i < v.len()
        invariant
            i <= v.len(),
            forall|a: int, b: int|
                #![trigger v@[a], v@[b]]
                0 <= a < b < v@.len() && a < i ==> v@[a] != v@[b],
        decreases v.len() - i,
    {
        let mut j: usize = i + 1;
        while j < v.len()
            invariant
                i < j <= v.len(),
                forall|b: int| i < b < j ==> v@[i as int] != #[trigger] v@[b],
            decreases v.len() - j,
        {
            if v[j] == v[i] {
                return true;
            }
            j += 1;
        }
        i += 1;
    }
    false
}

impl OracleManager {
    /// Force-set a market's final outcome, bypassing oracle consensus.
    ///
    /// Requires a binary outcome, at least `required_signatures` approvers,
    /// each approver to have proven control of its identity and to be a
    /// current admin signer, no approver listed twice, the global cooldown to
    /// have elapsed since the last override on any market, and the market to
    /// be registered. On success the persisted outcome is overwritten
    /// (winning over any earlier organic or overridden value), the market is
    /// permanently marked as manually overridden, a full audit record is
    /// stored, the global override clock advances to `now`, and an event is
    /// appended. A failing call changes nothing.
    pub fn emergency_override(
        &mut self,
        approvers: Vec<u64>,
        market_id: u64,
        forced_outcome: u32,
        justification_hash: u64,
        auth: &AuthContext,
        now: u64,
    ) -> (r: Result<(), Error>)
        requires
            old(self).wf(),
        ensures
            final(self).wf(),
            match r {
                Ok(()) => old(self)@.emergency_override_error(
                    approvers@,
                    market_id,
                    forced_outcome,
                    auth.proven@,
                    now,
                ) is None && final(self)@ == old(self)@.emergency_override_next(
                    approvers@,
                    market_id,
                    forced_outcome,
                    justification_hash,
                    now,
                ),
                Err(e) => old(self)@.emergency_override_error(
                    approvers@,
                    market_id,
                    forced_outcome,
                    auth.proven@,
                    now,
                ) == Some(e) && final(self)@ == old(self)@,
            },
    {
        if forced_outcome > 1 {
            return Err(Error::InvalidOutcome);
        }
        if approvers.len() < self.required_signatures as usize {
            return Err(Error::InsufficientApprovers);
        }
        let ghost pre = self@;
        let mut k: usize = 0;
        while k < approvers.len()
            invariant
                self == old(self),
                self.wf(),
                pre == self@,
                forced_outcome <= 1,
                approvers@.len() >= self@.required_signatures,
                k <= approvers@.len(),
                forall|j: int|
                    0 <= j < k ==> auth.proven@.contains(#[trigger] approvers@[j])
                        && self@.is_admin_signer(approvers@[j]),
            decreases approvers@.len() - k,
        {
            let a = approvers[k];
            if !auth.proves(a) {
                proof {
                    pre.lemma_approver_check_prefix(approvers@, auth.proven@, k as int);
                    assert(approvers@.skip(k as int)[0] == a);
                }
                return Err(Error::NotAuthorized);
            }
            if !contains_u64(&self.admin_signers, a) {
                proof {
                    pre.lemma_approver_check_prefix(approvers@, auth.proven@, k as int);
                    assert(approvers@.skip(k as int)[0] == a);
                }
                return Err(Error::InvalidApprover);
            }
            k += 1;
        }
        proof {
            pre.lemma_approver_check_prefix(approvers@, auth.proven@, approvers@.len() as int);
            assert(approvers@.skip(approvers@.len() as int) =~= Seq::<u64>::empty());
        }
        if find_duplicate_u64(&approvers) {
            return Err(Error::DuplicateApprover);
        }
        if self.last_override_time > 0 && (now < self.last_override_time || now
            - self.last_override_time < self.override_cooldown) {
            return Err(Error::CooldownActive);
        }
        let idx_opt = self.find_override(market_id);
        if self.find_market(market_id).is_none() {
            return Err(Error::MarketNotRegistered);
        }
        let rec = EmergencyOverrideRecord {
            market_id,
            forced_outcome,
            justification_hash,
            approvers: copy_u64_vec(&approvers),
            timestamp: now,
        };
        match idx_opt {
            Some(i) => {
                self.overrides.set(i, rec);
            },
            None => {
                self.overrides.push(rec);
            },
        }
        self.last_override_time = now;
        self.events.push(
            OracleEvent::EmergencyOverride {
                market_id,
                forced_outcome,
                justification_hash,
                approvers,
                timestamp: now,
            },
        );
        proof {
            let next = pre.emergency_override_next(
                approvers@,
                market_id,
                forced_outcome,
                justification_hash,
                now,
            );
            assert(self@.overrides =~= next.overrides);
            assert(self@.events =~= next.events);
            assert(self@ =~= next);
            pre.lemma_emergency_override_next_inv(
                approvers@,
                market_id,
                forced_outcome,
                justification_hash,
                now,
            );
        }
        Ok(())
    }

    /// The market's permanent override audit record, if it was ever
    /// overridden.
    pub fn get_override_record(&self, market_id: u64) -> (r: Option<&EmergencyOverrideRecord>)
        requires
            self.wf(),
        ensures
            match r {
                Some(rec) => self@.override_of(market_id) == Some(rec@),
                None => self@.override_of(market_id) is None,
            },
    {
        match self.find_override(market_id) {
            Some(i) => Some(&self.overrides[i]),
            None => None,
        }
    }

    /// Whether the market's outcome was force-set by an emergency override.
    pub fn is_manual_override(&self, market_id: u64) -> (r: bool)
        requires
            self.wf(),
        ensures
            r == self@.is_manual(market_id),
    {
        self.find_override(market_id).is_some()
    }
}

} // verus!
