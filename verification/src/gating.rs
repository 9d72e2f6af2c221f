//! What gates a release: the programmable conditions of an escrow and its
//! multi-party approvals.

use vstd::prelude::*;
use crate::address::Address;
use crate::conditions::{
    failures,
    lemma_evaluation_idempotent,
    Condition,
    ConditionOperator,
    ConditionType,
    ReleaseCondition,
    VerificationResult,
};
use crate::error::Error;
use crate::escrow::{Escrow, EscrowStatus};
use crate::host::{names, PartyList};
use crate::multi_party::MultiPartyConfig;
use crate::payment_escrow::PaymentEscrowContract;

verus! {

impl PaymentEscrowContract {
    /// Whether `who` is the sender of the escrow `id` or the administrator.
    pub open spec fn manages(&self, id: u64, who: Seq<char>) -> bool
        recommends
            self.has(id),
    {
        who == self.escrow(id).sender@ || who == self.admin@
    }

    /// Why `caller` may not change the terms of the escrow `id`, if anything
    /// forbids it: there is no such escrow, or `caller` neither sent it nor
    /// administers the contract.
    pub open spec fn management_refused(&self, id: u64, caller: Seq<char>) -> Option<Error> {
        if !self.has(id) {
            Some(Error::EscrowNotFound)
        } else if !self.manages(id, caller) {
            Some(Error::Unauthorized)
        } else {
            None
        }
    }

    /// The place of the escrow `id`, where `caller` may change its terms.
    fn managed_slot(&self, id: u64, caller: &Address) -> (r: Result<usize, Error>)
        ensures
            match self.management_refused(id, caller@) {
                Some(e) => r == Err::<usize, Error>(e),
                None => r is Ok && r->Ok_0 == id - 1,
            },
    {
        let at = match self.slot(id) {
            Some(at) => at,
            None => {
                return Err(Error::EscrowNotFound);
            },
        };
        if !caller.same_as(&self.escrows[at].sender) && !caller.same_as(&self.admin) {
            return Err(Error::Unauthorized);
        }
        Ok(at)
    }

    /// Why a condition may not be added, if anything forbids it.
    pub open spec fn condition_refused(&self, id: u64, caller: Seq<char>) -> Option<Error> {
        if self.management_refused(id, caller) is Some {
            self.management_refused(id, caller)
        } else if self.escrow(id).status != EscrowStatus::Pending && self.escrow(id).status
            != EscrowStatus::Funded {
            Some(Error::InvalidStatus)
        } else {
            None
        }
    }

    /// Adds a condition, not yet verified, at the end of the conditions of
    /// the escrow `escrow_id`.
    pub fn add_condition(
        &mut self,
        escrow_id: u64,
        caller: &Address,
        condition_type: ConditionType,
        required: bool,
        threshold_value: i128,
    ) -> (r: Result<(), Error>)
        requires
            old(self).wf(),
        ensures
            final(self).wf(),
            old(self).conserved() ==> final(self).conserved(),
            match old(self).condition_refused(escrow_id, caller@) {
                Some(e) => r == Err::<(), Error>(e) && final(self)@ == old(self)@,
                None => {
                    &&& r == Ok::<(), Error>(())
                    &&& final(self)@ == old(self)@.with_escrow(
                        escrow_id,
                        old(self).escrow(escrow_id).with_terms(
                            final(self).escrow(escrow_id).release_conditions,
                        ),
                    )
                    &&& old(self).escrow(escrow_id).release_conditions.extended(
                        final(self).escrow(escrow_id).release_conditions,
                        Condition { condition_type, required, verified: false, threshold_value },
                    )
                },
            },
    {
        let at = match self.managed_slot(escrow_id, caller) {
            Ok(at) => at,
            Err(e) => {
                return Err(e);
            },
        };
        if self.escrows[at].status != EscrowStatus::Pending && self.escrows[at].status
            != EscrowStatus::Funded {
            return Err(Error::InvalidStatus);
        }
        let condition = Condition { condition_type, required, verified: false, threshold_value };
        self.escrows[at].release_conditions.conditions.push(condition);
        proof {
            assert(final(self)@.escrows =~= old(self)@.with_escrow(
                escrow_id,
                old(self).escrow(escrow_id).with_terms(
                    final(self).escrow(escrow_id).release_conditions,
                ),
            ).escrows);
        }
        Ok(())
    }

    /// Sets the operator under which the conditions of the escrow
    /// `escrow_id` combine.
    pub fn set_condition_operator(
        &mut self,
        escrow_id: u64,
        caller: &Address,
        operator: ConditionOperator,
    ) -> (r: Result<(), Error>)
        requires
            old(self).wf(),
        ensures
            final(self).wf(),
            old(self).conserved() ==> final(self).conserved(),
            match old(self).management_refused(escrow_id, caller@) {
                Some(e) => r == Err::<(), Error>(e) && final(self)@ == old(self)@,
                None => r == Ok::<(), Error>(()) && final(self)@ == old(self)@.with_escrow(
                    escrow_id,
                    old(self).escrow(escrow_id).with_terms(
                        ReleaseCondition {
                            operator,
                            ..old(self).escrow(escrow_id).release_conditions
                        },
                    ),
                ),
            },
    {
        let at = match self.managed_slot(escrow_id, caller) {
            Ok(at) => at,
            Err(e) => {
                return Err(e);
            },
        };
        self.escrows[at].release_conditions.operator = operator;
        proof {
            assert(final(self)@.escrows =~= old(self)@.with_escrow(
                escrow_id,
                old(self).escrow(escrow_id).with_terms(
                    ReleaseCondition { operator, ..old(self).escrow(escrow_id).release_conditions },
                ),
            ).escrows);
        }
        Ok(())
    }

    /// Sets the number of approvals that the approval conditions of the
    /// escrow `escrow_id` ask for.
    pub fn set_min_approvals(&mut self, escrow_id: u64, caller: &Address, min_approvals: u32) -> (r:
        Result<(), Error>)
        requires
            old(self).wf(),
        ensures
            final(self).wf(),
            old(self).conserved() ==> final(self).conserved(),
            match old(self).management_refused(escrow_id, caller@) {
                Some(e) => r == Err::<(), Error>(e) && final(self)@ == old(self)@,
                None => r == Ok::<(), Error>(()) && final(self)@ == old(self)@.with_escrow(
                    escrow_id,
                    old(self).escrow(escrow_id).with_terms(
                        ReleaseCondition {
                            min_approvals,
                            ..old(self).escrow(escrow_id).release_conditions
                        },
                    ),
                ),
            },
    {
        let at = match self.managed_slot(escrow_id, caller) {
            Ok(at) => at,
            Err(e) => {
                return Err(e);
            },
        };
        self.escrows[at].release_conditions.min_approvals = min_approvals;
        proof {
            assert(final(self)@.escrows =~= old(self)@.with_escrow(
                escrow_id,
                old(self).escrow(escrow_id).with_terms(
                    ReleaseCondition {
                        min_approvals,
                        ..old(self).escrow(escrow_id).release_conditions
                    },
                ),
            ).escrows);
        }
        Ok(())
    }

    /// Counts one more approval of the escrow `escrow_id`; the count stays
    /// where it is once it has reached the largest number it can hold.
    /// `EscrowNotFound` where there is no such escrow, `Unauthorized` unless
    /// `approver` is the administrator, the recipient or the sender.
    pub fn add_approval(&mut self, escrow_id: u64, approver: &Address) -> (r: Result<(), Error>)
        requires
            old(self).wf(),
        ensures
            final(self).wf(),
            old(self).conserved() ==> final(self).conserved(),
            r == if !old(self).has(escrow_id) {
                Err::<(), Error>(Error::EscrowNotFound)
            } else if approver@ != old(self).admin@ && approver@ != old(self).escrow(
                escrow_id,
            ).recipient@ && approver@ != old(self).escrow(escrow_id).sender@ {
                Err::<(), Error>(Error::Unauthorized)
            } else {
                Ok::<(), Error>(())
            },
            r is Err ==> final(self)@ == old(self)@,
            r is Ok ==> final(self)@ == old(self)@.with_escrow(
                escrow_id,
                old(self).escrow(escrow_id).with_terms(
                    ReleaseCondition {
                        current_approvals: if old(self).escrow(
                            escrow_id,
                        ).release_conditions.current_approvals < u32::MAX {
                            (old(self).escrow(escrow_id).release_conditions.current_approvals
                                + 1) as u32
                        } else {
                            u32::MAX
                        },
                        ..old(self).escrow(escrow_id).release_conditions
                    },
                ),
            ),
    {
        let at = match self.slot(escrow_id) {
            Some(at) => at,
            None => {
                return Err(Error::EscrowNotFound);
            },
        };
        if !approver.same_as(&self.admin) && !approver.same_as(&self.escrows[at].recipient)
            && !approver.same_as(&self.escrows[at].sender) {
            return Err(Error::Unauthorized);
        }
        let current = self.escrows[at].release_conditions.current_approvals;
        if current < u32::MAX {
            self.escrows[at].release_conditions.current_approvals = current + 1;
        }
        proof {
            assert(final(self)@.escrows =~= old(self)@.with_escrow(
                escrow_id,
                old(self).escrow(escrow_id).with_terms(
                    ReleaseCondition {
                        current_approvals: if current < u32::MAX {
                            (current + 1) as u32
                        } else {
                            u32::MAX
                        },
                        ..old(self).escrow(escrow_id).release_conditions
                    },
                ),
            ).escrows);
        }
        Ok(())
    }

    /// Judges the conditions of the escrow `escrow_id` at `now` against
    /// `proof_data`, stores each outcome in its condition, and returns the
    /// verdict with the required conditions that failed. `EscrowNotFound`
    /// where there is no such escrow.
    pub fn verify_conditions(&mut self, escrow_id: u64, proof_data: i128, now: u64) -> (r: Result<
        VerificationResult,
        Error,
    >)
        requires
            old(self).wf(),
        ensures
            final(self).wf(),
            old(self).conserved() ==> final(self).conserved(),
            !old(self).has(escrow_id) ==> r == Err::<VerificationResult, Error>(
                Error::EscrowNotFound,
            ) && final(self)@ == old(self)@,
            old(self).has(escrow_id) ==> {
                let before = old(self).escrow(escrow_id);
                let after = final(self).escrow(escrow_id);
                let facts = before.facts(now, proof_data);
                &&& r is Ok
                &&& r->Ok_0.all_passed == before.release_conditions.satisfied(facts)
                &&& r->Ok_0.failed_conditions@ == failures(
                    before.release_conditions.conditions@,
                    facts,
                )
                &&& final(self)@ == old(self)@.with_escrow(
                    escrow_id,
                    before.with_terms(after.release_conditions),
                )
                &&& before.release_conditions.evaluated(after.release_conditions, facts)
            },
    {
        let at = match self.slot(escrow_id) {
            Some(at) => at,
            None => {
                return Err(Error::EscrowNotFound);
            },
        };
        let kyc_compliant = self.escrows[at].kyc_compliant;
        let result = self.escrows[at].release_conditions.evaluate(now, proof_data, kyc_compliant);
        proof {
            assert(final(self)@.escrows =~= old(self)@.with_escrow(
                escrow_id,
                old(self).escrow(escrow_id).with_terms(
                    final(self).escrow(escrow_id).release_conditions,
                ),
            ).escrows);
        }
        Ok(result)
    }

    /// Why multi-party approval may not be set up, if anything forbids it.
    pub open spec fn setup_refused(
        &self,
        id: u64,
        caller: Seq<char>,
        approvers: Seq<Option<Seq<char>>>,
        required_approvals: u32,
    ) -> Option<Error> {
        if self.management_refused(id, caller) is Some {
            self.management_refused(id, caller)
        } else if self.escrow(id).status != EscrowStatus::Pending && self.escrow(id).status
            != EscrowStatus::Funded {
            Some(Error::InvalidStatus)
        } else if self.escrow(id).multi_party_enabled {
            Some(Error::InvalidStatus)
        } else if required_approvals == 0 || required_approvals > approvers.len() {
            Some(Error::InvalidApproverCount)
        } else {
            None
        }
    }

    /// Makes the escrow `escrow_id` a multi-party one: `approvers` may
    /// approve, `required_approvals` of them make the quorum, and no
    /// approval is taken after `approval_timeout`, unless that is 0.
    pub fn setup_multi_party_approval(
        &mut self,
        escrow_id: u64,
        caller: &Address,
        approvers: PartyList,
        required_approvals: u32,
        approval_timeout: u64,
    ) -> (r: Result<(), Error>)
        requires
            old(self).wf(),
        ensures
            final(self).wf(),
            old(self).conserved() ==> final(self).conserved(),
            match old(self).setup_refused(
                escrow_id,
                caller@,
                names(approvers),
                required_approvals,
            ) {
                Some(e) => r == Err::<(), Error>(e) && final(self)@ == old(self)@,
                None => {
                    &&& r == Ok::<(), Error>(())
                    &&& final(self).approval(escrow_id) is Some
                    &&& final(self).approval(escrow_id)->0.fresh(
                        approvers,
                        required_approvals,
                        approval_timeout,
                    )
                    &&& final(self)@ == old(self)@.with_escrow(
                        escrow_id,
                        Escrow { multi_party_enabled: true, ..old(self).escrow(escrow_id) },
                    ).with_approval(escrow_id, final(self).approval(escrow_id)->0)
                },
            },
    {
        let at = match self.managed_slot(escrow_id, caller) {
            Ok(at) => at,
            Err(e) => {
                return Err(e);
            },
        };
        if self.escrows[at].status != EscrowStatus::Pending && self.escrows[at].status
            != EscrowStatus::Funded {
            return Err(Error::InvalidStatus);
        }
        if self.escrows[at].multi_party_enabled {
            return Err(Error::InvalidStatus);
        }
        let config = match MultiPartyConfig::new(approvers, required_approvals, approval_timeout) {
            Ok(config) => config,
            Err(e) => {
                return Err(e);
            },
        };
        self.escrows[at].multi_party_enabled = true;
        self.approvals[at] = Some(config);
        proof {
            let expected = old(self)@.with_escrow(
                escrow_id,
                Escrow { multi_party_enabled: true, ..old(self).escrow(escrow_id) },
            ).with_approval(escrow_id, final(self).approval(escrow_id)->0);
            assert(final(self)@.escrows =~= expected.escrows);
            assert(final(self)@.approvals =~= expected.approvals);
        }
        Ok(())
    }

    /// Why the whitelist of the escrow `id` may not be changed by `caller`,
    /// before the configuration itself is asked.
    pub open spec fn whitelist_refused(&self, id: u64, caller: Seq<char>) -> Option<Error> {
        if self.management_refused(id, caller) is Some {
            self.management_refused(id, caller)
        } else if self.approval(id) is None {
            Some(Error::ConditionsNotMet)
        } else {
            None
        }
    }

    /// Adds `new_approver` to the whitelist of the escrow `escrow_id`.
    pub fn add_approver(&mut self, escrow_id: u64, caller: &Address, new_approver: Address) -> (r:
        Result<(), Error>)
        requires
            old(self).wf(),
        ensures
            final(self).wf(),
            old(self).conserved() ==> final(self).conserved(),
            match old(self).whitelist_refused(escrow_id, caller@) {
                Some(e) => r == Err::<(), Error>(e) && final(self)@ == old(self)@,
                None => match old(self).approval(escrow_id)->0.addition_refused(new_approver@) {
                    Some(e) => r == Err::<(), Error>(e) && final(self)@ == old(self)@,
                    None => {
                        &&& r == Ok::<(), Error>(())
                        &&& final(self).approval(escrow_id) is Some
                        &&& old(self).approval(escrow_id)->0.admits(
                            final(self).approval(escrow_id)->0,
                            new_approver@,
                        )
                        &&& final(self)@ == old(self)@.with_approval(
                            escrow_id,
                            final(self).approval(escrow_id)->0,
                        )
                    },
                },
            },
    {
        let at = match self.managed_slot(escrow_id, caller) {
            Ok(at) => at,
            Err(e) => {
                return Err(e);
            },
        };
        let r = match &mut self.approvals[at] {
            Some(config) => config.add_approver(new_approver),
            None => Err(Error::ConditionsNotMet),
        };
        proof {
            if r is Err {
                assert(final(self)@.approvals =~= old(self)@.approvals);
            } else {
                assert(final(self)@.approvals =~= old(self)@.with_approval(
                    escrow_id,
                    final(self).approval(escrow_id)->0,
                ).approvals);
            }
        }
        r
    }

    /// Takes `approver` off the whitelist of the escrow `escrow_id` and
    /// drops an approval that they gave.
    pub fn remove_approver(&mut self, escrow_id: u64, caller: &Address, approver: &Address) -> (r:
        Result<(), Error>)
        requires
            old(self).wf(),
        ensures
            final(self).wf(),
            old(self).conserved() ==> final(self).conserved(),
            match old(self).whitelist_refused(escrow_id, caller@) {
                Some(e) => r == Err::<(), Error>(e) && final(self)@ == old(self)@,
                None => match old(self).approval(escrow_id)->0.removal_refused(approver@) {
                    Some(e) => r == Err::<(), Error>(e) && final(self)@ == old(self)@,
                    None => {
                        &&& r == Ok::<(), Error>(())
                        &&& final(self).approval(escrow_id) is Some
                        &&& old(self).approval(escrow_id)->0.dismisses(
                            final(self).approval(escrow_id)->0,
                            approver@,
                        )
                        &&& final(self)@ == old(self)@.with_approval(
                            escrow_id,
                            final(self).approval(escrow_id)->0,
                        )
                    },
                },
            },
    {
        let at = match self.managed_slot(escrow_id, caller) {
            Ok(at) => at,
            Err(e) => {
                return Err(e);
            },
        };
        let r = match &mut self.approvals[at] {
            Some(config) => config.remove_approver(approver),
            None => Err(Error::ConditionsNotMet),
        };
        proof {
            if r is Err {
                assert(final(self)@.approvals =~= old(self)@.approvals);
            } else {
                assert(final(self)@.approvals =~= old(self)@.with_approval(
                    escrow_id,
                    final(self).approval(escrow_id)->0,
                ).approvals);
            }
        }
        r
    }

    /// Why an approval of the escrow `id` may be neither given nor
    /// withdrawn, before the configuration itself is asked.
    pub open spec fn approving_refused(&self, id: u64) -> Option<Error> {
        if !self.has(id) {
            Some(Error::EscrowNotFound)
        } else if !self.escrow(id).multi_party_enabled || self.approval(id) is None {
            Some(Error::ConditionsNotMet)
        } else {
            None
        }
    }

    /// Records the approval of `approver` for the escrow `escrow_id` and
    /// reports whether the quorum is now met.
    pub fn multi_party_approve(
        &mut self,
        escrow_id: u64,
        approver: Address,
        now: u64,
    ) -> (r: Result<
        bool,
        Error,
    >)
        requires
            old(self).wf(),
        ensures
            final(self).wf(),
            old(self).conserved() ==> final(self).conserved(),
            match old(self).approving_refused(escrow_id) {
                Some(e) => r == Err::<bool, Error>(e) && final(self)@ == old(self)@,
                None => match old(self).approval(escrow_id)->0.approval_refused(approver@, now) {
                    Some(e) => r == Err::<bool, Error>(e) && final(self)@ == old(self)@,
                    None => {
                        &&& r == Ok::<bool, Error>(final(self).quorum(escrow_id))
                        &&& final(self).approval(escrow_id) is Some
                        &&& old(self).approval(escrow_id)->0.approved_by(
                            final(self).approval(escrow_id)->0,
                            approver@,
                        )
                        &&& final(self)@ == old(self)@.with_approval(
                            escrow_id,
                            final(self).approval(escrow_id)->0,
                        )
                    },
                },
            },
    {
        let at = match self.slot(escrow_id) {
            Some(at) => at,
            None => {
                return Err(Error::EscrowNotFound);
            },
        };
        if !self.escrows[at].multi_party_enabled {
            return Err(Error::ConditionsNotMet);
        }
        let r = match &mut self.approvals[at] {
            Some(config) => config.approve(approver, now),
            None => Err(Error::ConditionsNotMet),
        };
        proof {
            if r is Err {
                assert(final(self)@.approvals =~= old(self)@.approvals);
            } else {
                assert(final(self)@.approvals =~= old(self)@.with_approval(
                    escrow_id,
                    final(self).approval(escrow_id)->0,
                ).approvals);
            }
        }
        r
    }

    /// Withdraws the approval that `approver` gave for the escrow
    /// `escrow_id`.
    pub fn revoke_approval(&mut self, escrow_id: u64, approver: &Address) -> (r: Result<(), Error>)
        requires
            old(self).wf(),
        ensures
            final(self).wf(),
            old(self).conserved() ==> final(self).conserved(),
            match old(self).approving_refused(escrow_id) {
                Some(e) => r == Err::<(), Error>(e) && final(self)@ == old(self)@,
                None => match old(self).approval(escrow_id)->0.revocation_refused(approver@) {
                    Some(e) => r == Err::<(), Error>(e) && final(self)@ == old(self)@,
                    None => {
                        &&& r == Ok::<(), Error>(())
                        &&& final(self).approval(escrow_id) is Some
                        &&& old(self).approval(escrow_id)->0.revoked_by(
                            final(self).approval(escrow_id)->0,
                            approver@,
                        )
                        &&& final(self)@ == old(self)@.with_approval(
                            escrow_id,
                            final(self).approval(escrow_id)->0,
                        )
                    },
                },
            },
    {
        let at = match self.slot(escrow_id) {
            Some(at) => at,
            None => {
                return Err(Error::EscrowNotFound);
            },
        };
        if !self.escrows[at].multi_party_enabled {
            return Err(Error::ConditionsNotMet);
        }
        let r = match &mut self.approvals[at] {
            Some(config) => config.revoke(approver),
            None => Err(Error::ConditionsNotMet),
        };
        proof {
            if r is Err {
                assert(final(self)@.approvals =~= old(self)@.approvals);
            } else {
                assert(final(self)@.approvals =~= old(self)@.with_approval(
                    escrow_id,
                    final(self).approval(escrow_id)->0,
                ).approvals);
            }
        }
        r
    }
}

/// Evaluating the conditions of an escrow a second time, at the same time
/// and against the same proof, with nothing done to the escrow in between,
/// gives the verdict and the failures of the first evaluation.
pub proof fn lemma_verify_conditions_idempotent(
    before: Escrow,
    after: Escrow,
    now: u64,
    proof_data: i128,
)
    requires
        after == before.with_terms(after.release_conditions),
        before.release_conditions.evaluated(
            after.release_conditions,
            before.facts(now, proof_data),
        ),
    ensures
        after.facts(now, proof_data) == before.facts(now, proof_data),
        after.release_conditions.satisfied(after.facts(now, proof_data))
            == before.release_conditions.satisfied(before.facts(now, proof_data)),
        failures(after.release_conditions.conditions@, after.facts(now, proof_data)) == failures(
            before.release_conditions.conditions@,
            before.facts(now, proof_data),
        ),
{
    lemma_evaluation_idempotent(
        before.release_conditions,
        after.release_conditions,
        before.facts(now, proof_data),
    );
}

} // verus!
