//! Moving funds through the contract: deposit, approval, release and refund.
//!
//! Releases and refunds run under the reentrancy guard: while it is held
//! they are refused, and each of them leaves it free.

use vstd::prelude::*;
use crate::address::Address;
use crate::error::Error;
use crate::escrow::{Escrow, EscrowStatus, Payout, RefundReason};
use crate::multi_party::MultiPartyConfig;
use crate::payment_escrow::PaymentEscrowContract;

verus! {

impl PaymentEscrowContract {
    /// Whether the escrow `id`, if it had come to its end, has in `after` the
    /// status that it had.
    pub open spec fn ended_stays(&self, after: PaymentEscrowContract, id: u64) -> bool {
        self.has(id) && self.escrow(id).terminal() ==> after.escrow(id).status == self.escrow(
            id,
        ).status
    }

    /// Why a deposit is refused, if it is.
    pub open spec fn deposit_refused(
        &self,
        id: u64,
        caller: Seq<char>,
        amount: i128,
    ) -> Option<Error> {
        if amount <= 0 {
            Some(Error::InvalidAmount)
        } else if !self.has(id) {
            Some(Error::EscrowNotFound)
        } else {
            self.escrow(id).deposit_refused(caller, amount)
        }
    }

    /// Records that `caller` has moved `amount` into the custody of the
    /// escrow `escrow_id`.
    pub fn deposit(
        &mut self,
        escrow_id: u64,
        caller: &Address,
        amount: i128,
        now: u64,
    ) -> (r: Result<
        (),
        Error,
    >)
        requires
            old(self).wf(),
        ensures
            old(self).ended_stays(*final(self), escrow_id),
            final(self).wf(),
            old(self).conserved() ==> final(self).conserved(),
            match old(self).deposit_refused(escrow_id, caller@, amount) {
                Some(e) => r == Err::<(), Error>(e) && final(self)@ == old(self)@,
                None => r == Ok::<(), Error>(()) &&
                    final(self)@ == old(self)@.with_escrow(
                        escrow_id,
                        old(self).escrow(escrow_id).after_deposit(amount, now),
                    ),
            },
    {
        if amount <= 0 {
            return Err(Error::InvalidAmount);
        }
        let at = match self.slot(escrow_id) {
            Some(at) => at,
            None => {
                return Err(Error::EscrowNotFound);
            },
        };
        let r = self.escrows[at].deposit(caller, amount, now);
        proof {
            if r is Err {
                assert(self.escrows@ =~= old(self).escrows@);
            }
        }
        r
    }

    /// Approves the funded escrow `escrow_id`: `EscrowNotFound` where there
    /// is none, `InvalidStatus` unless it is funded.
    pub fn approve_escrow(&mut self, escrow_id: u64) -> (r: Result<(), Error>)
        requires
            old(self).wf(),
        ensures
            old(self).ended_stays(*final(self), escrow_id),
            final(self).wf(),
            old(self).conserved() ==> final(self).conserved(),
            r == if !old(self).has(escrow_id) {
                Err::<(), Error>(Error::EscrowNotFound)
            } else if old(self).escrow(escrow_id).status != EscrowStatus::Funded {
                Err::<(), Error>(Error::InvalidStatus)
            } else {
                Ok::<(), Error>(())
            },
            r is Err ==> final(self)@ == old(self)@,
            r is Ok ==>
                final(self)@ == old(self)@.with_escrow(
                    escrow_id,
                    old(self).escrow(escrow_id).with_status(EscrowStatus::Approved),
                ),
    {
        let at = match self.slot(escrow_id) {
            Some(at) => at,
            None => {
                return Err(Error::EscrowNotFound);
            },
        };
        let r = self.escrows[at].approve();
        proof {
            if r is Err {
                assert(self.escrows@ =~= old(self).escrows@);
            }
        }
        r
    }

    /// Allows partial releases from the escrow `escrow_id` from now on:
    /// `EscrowNotFound` where there is none, `Unauthorized` unless `caller`
    /// is its sender.
    pub fn enable_partial_release(&mut self, escrow_id: u64, caller: &Address) -> (r: Result<
        (),
        Error,
    >)
        requires
            old(self).wf(),
        ensures
            old(self).ended_stays(*final(self), escrow_id),
            final(self).wf(),
            old(self).conserved() ==> final(self).conserved(),
            r == if !old(self).has(escrow_id) {
                Err::<(), Error>(Error::EscrowNotFound)
            } else if caller@ != old(self).escrow(escrow_id).sender@ {
                Err::<(), Error>(Error::Unauthorized)
            } else {
                Ok::<(), Error>(())
            },
            r is Err ==> final(self)@ == old(self)@,
            r is Ok ==>
                final(self)@ == old(self)@.with_escrow(
                    escrow_id,
                    Escrow { allow_partial_release: true, ..old(self).escrow(escrow_id) },
                ),
    {
        let at = match self.slot(escrow_id) {
            Some(at) => at,
            None => {
                return Err(Error::EscrowNotFound);
            },
        };
        let r = self.escrows[at].enable_partial_release(caller);
        proof {
            if r is Err {
                assert(self.escrows@ =~= old(self).escrows@);
            }
        }
        r
    }

    /// Closes the multi-party configuration at `at`, where there is one and
    /// the escrow there is a multi-party one.
    fn close_approvals(&mut self, at: usize)
        requires
            old(self).wf(),
            at < old(self).escrows@.len(),
        ensures
            final(self).wf(),
            final(self)@ == old(self)@.closed((at + 1) as u64),
    {
        if self.escrows[at].multi_party_enabled {
            match &mut self.approvals[at] {
                Some(config) => {
                    config.finalize();
                },
                None => {},
            }
        }
        assert(final(self)@.approvals =~= old(self)@.closed((at + 1) as u64).approvals);
    }

    /// Why a full release is refused, if it is.
    pub open spec fn release_refused(&self, id: u64, caller: Seq<char>, now: u64) -> Option<Error> {
        if self.reentrancy_guard {
            Some(Error::UnauthorizedCaller)
        } else if !self.has(id) {
            Some(Error::EscrowNotFound)
        } else {
            self.escrow(id).release_refused(
                caller,
                self.admin@,
                self.fees.platform_percentage,
                self.quorum(id),
                now,
            )
        }
    }

    /// Releases everything that the escrow `escrow_id` holds unreleased and
    /// returns the transfers to make: the platform fee to the administrator,
    /// the rest to the recipient.
    ///
    /// A refusal changes nothing, but for `Expired`, which marks the escrow
    /// expired.
    pub fn release_escrow(&mut self, escrow_id: u64, caller: &Address, now: u64) -> (r: Result<
        Payout,
        Error,
    >)
        requires
            old(self).wf(),
        ensures
            old(self).ended_stays(*final(self), escrow_id),
            final(self).wf(),
            match old(self).release_refused(escrow_id, caller@, now) {
                Some(Error::Expired) => r == Err::<Payout, Error>(Error::Expired) &&
                    final(self)@ == old(self)@.with_escrow(
                        escrow_id,
                        old(self).escrow(escrow_id).with_status(EscrowStatus::Expired),
                    ),
                Some(e) => r == Err::<Payout, Error>(e) && final(self)@ == old(self)@,
                None => {
                    &&& r is Ok
                    &&& Escrow::settles(
                        r->Ok_0,
                        old(self).escrow(escrow_id).recipient,
                        old(self).admin,
                        old(self).escrow(escrow_id).unreleased(),
                        old(self).fees.platform_percentage,
                    )
                    &&& r->Ok_0.amount > 0
                    &&& final(self)@ == old(self)@.with_escrow(
                        escrow_id,
                        old(self).escrow(escrow_id).after_release(now),
                    ).closed(escrow_id)
                },
            },
            r is Err && old(self).conserved() ==> final(self).conserved(),
            r is Ok && old(self).conserved() ==> (final(self).conserved() <==> old(self).escrow(
                escrow_id,
            ).refunded_amount == 0),
    {
        if self.reentrancy_guard {
            return Err(Error::UnauthorizedCaller);
        }
        let at = match self.slot(escrow_id) {
            Some(at) => at,
            None => {
                return Err(Error::EscrowNotFound);
            },
        };
        let quorum = match &self.approvals[at] {
            Some(config) => config.quorum_met(),
            None => false,
        };
        let rate = self.fees.platform_percentage;
        let r = self.escrows[at].release(caller, &self.admin, rate, quorum, now);
        proof {
            assert(self.escrows@
                =~= old(self).escrows@.update(at as int, self.escrows@[at as int]));
            if self.escrows@[at as int] == old(self).escrows@[at as int] {
                assert(self.escrows@ =~= old(self).escrows@);
            }
        }
        if r.is_ok() {
            self.close_approvals(at);
        }
        r
    }

    /// Why a partial release is refused, if it is.
    pub open spec fn partial_release_refused(
        &self,
        id: u64,
        caller: Seq<char>,
        release_amount: i128,
        now: u64,
    ) -> Option<Error> {
        if release_amount <= 0 {
            Some(Error::InvalidAmount)
        } else if self.reentrancy_guard {
            Some(Error::UnauthorizedCaller)
        } else if !self.has(id) {
            Some(Error::EscrowNotFound)
        } else {
            self.escrow(id).partial_release_refused(
                caller,
                self.admin@,
                self.fees.platform_percentage,
                release_amount,
                now,
            )
        }
    }

    /// Releases `release_amount` from the escrow `escrow_id` and returns the
    /// transfers to make: the platform fee to the administrator, the rest to
    /// the recipient.
    ///
    /// A refusal changes nothing, but for `Expired`, which marks the escrow
    /// expired unless it is released already.
    pub fn release_partial(
        &mut self,
        escrow_id: u64,
        caller: &Address,
        release_amount: i128,
        now: u64,
    ) -> (r: Result<Payout, Error>)
        requires
            old(self).wf(),
        ensures
            old(self).ended_stays(*final(self), escrow_id),
            final(self).wf(),
            match old(self).partial_release_refused(escrow_id, caller@, release_amount, now) {
                Some(Error::Expired) => r == Err::<Payout, Error>(Error::Expired) &&
                    final(self)@ == old(self)@.with_escrow(
                        escrow_id,
                        old(self).escrow(escrow_id).found_lapsed(),
                    ),
                Some(e) => r == Err::<Payout, Error>(e) && final(self)@ == old(self)@,
                None => {
                    &&& r is Ok
                    &&& Escrow::settles(
                        r->Ok_0,
                        old(self).escrow(escrow_id).recipient,
                        old(self).admin,
                        release_amount as int,
                        old(self).fees.platform_percentage,
                    )
                    &&& final(self)@ == old(self)@.with_escrow(
                        escrow_id,
                        old(self).escrow(escrow_id).after_partial_release(release_amount, now),
                    )
                },
            },
            r is Err && old(self).conserved() ==> final(self).conserved(),
            r is Ok && old(self).conserved() ==> (final(self).conserved() <==> release_amount
                <= old(self).escrow(escrow_id).refundable()),
    {
        if release_amount <= 0 {
            return Err(Error::InvalidAmount);
        }
        if self.reentrancy_guard {
            return Err(Error::UnauthorizedCaller);
        }
        let at = match self.slot(escrow_id) {
            Some(at) => at,
            None => {
                return Err(Error::EscrowNotFound);
            },
        };
        let rate = self.fees.platform_percentage;
        let r = self.escrows[at].release_partial(caller, &self.admin, rate, release_amount, now);
        proof {
            assert(self.escrows@
                =~= old(self).escrows@.update(at as int, self.escrows@[at as int]));
            if self.escrows@[at as int] == old(self).escrows@[at as int] {
                assert(self.escrows@ =~= old(self).escrows@);
            }
        }
        r
    }

    /// Why a full refund is refused, if it is.
    pub open spec fn refund_refused(
        &self,
        id: u64,
        caller: Seq<char>,
        reason: RefundReason,
        now: u64,
    ) -> Option<Error> {
        if self.reentrancy_guard {
            Some(Error::UnauthorizedCaller)
        } else if !self.has(id) {
            Some(Error::EscrowNotFound)
        } else {
            self.escrow(id).refund_refused(
                caller,
                self.admin@,
                self.processing_fee_percentage,
                self.quorum(id),
                reason,
                now,
            )
        }
    }

    /// Refunds everything that the escrow `escrow_id` holds neither released
    /// nor refunded and returns the transfers to make: the processing fee to
    /// the administrator, the rest to the sender. A refusal changes nothing.
    pub fn refund_escrow(
        &mut self,
        escrow_id: u64,
        caller: &Address,
        reason: RefundReason,
        now: u64,
    ) -> (r: Result<Payout, Error>)
        requires
            old(self).wf(),
        ensures
            old(self).ended_stays(*final(self), escrow_id),
            final(self).wf(),
            old(self).conserved() ==> final(self).conserved(),
            match old(self).refund_refused(escrow_id, caller@, reason, now) {
                Some(e) => r == Err::<Payout, Error>(e) && final(self)@ == old(self)@,
                None => {
                    &&& r is Ok
                    &&& Escrow::settles(
                        r->Ok_0,
                        old(self).escrow(escrow_id).sender,
                        old(self).admin,
                        old(self).escrow(escrow_id).refundable(),
                        old(self).processing_fee_percentage,
                    )
                    &&& final(self)@ == old(self)@.with_escrow(
                        escrow_id,
                        old(self).escrow(escrow_id).after_refund(now),
                    ).closed(escrow_id)
                },
            },
    {
        if self.reentrancy_guard {
            return Err(Error::UnauthorizedCaller);
        }
        let at = match self.slot(escrow_id) {
            Some(at) => at,
            None => {
                return Err(Error::EscrowNotFound);
            },
        };
        let quorum = match &self.approvals[at] {
            Some(config) => config.quorum_met(),
            None => false,
        };
        let rate = self.processing_fee_percentage;
        let r = self.escrows[at].refund(caller, &self.admin, rate, quorum, reason, now);
        proof {
            assert(self.escrows@
                =~= old(self).escrows@.update(at as int, self.escrows@[at as int]));
            if self.escrows@[at as int] == old(self).escrows@[at as int] {
                assert(self.escrows@ =~= old(self).escrows@);
            }
        }
        if r.is_ok() {
            self.close_approvals(at);
        }
        r
    }

    /// Why a partial refund is refused, if it is.
    pub open spec fn partial_refund_refused(
        &self,
        id: u64,
        caller: Seq<char>,
        refund_amount: i128,
    ) -> Option<Error> {
        if refund_amount <= 0 {
            Some(Error::InvalidRefundAmount)
        } else if self.reentrancy_guard {
            Some(Error::UnauthorizedCaller)
        } else if !self.has(id) {
            Some(Error::EscrowNotFound)
        } else {
            self.escrow(id).partial_refund_refused(
                caller,
                self.admin@,
                self.processing_fee_percentage,
                refund_amount,
            )
        }
    }

    /// Refunds `refund_amount` from the escrow `escrow_id` and returns the
    /// transfers to make: the processing fee to the administrator, the rest
    /// to the sender. A refusal changes nothing.
    pub fn refund_partial(
        &mut self,
        escrow_id: u64,
        caller: &Address,
        refund_amount: i128,
        reason: RefundReason,
        now: u64,
    ) -> (r: Result<Payout, Error>)
        requires
            old(self).wf(),
        ensures
            old(self).ended_stays(*final(self), escrow_id),
            final(self).wf(),
            old(self).conserved() ==> final(self).conserved(),
            match old(self).partial_refund_refused(escrow_id, caller@, refund_amount) {
                Some(e) => r == Err::<Payout, Error>(e) && final(self)@ == old(self)@,
                None => {
                    &&& r is Ok
                    &&& Escrow::settles(
                        r->Ok_0,
                        old(self).escrow(escrow_id).sender,
                        old(self).admin,
                        refund_amount as int,
                        old(self).processing_fee_percentage,
                    )
                    &&& final(self)@ == old(self)@.with_escrow(
                        escrow_id,
                        old(self).escrow(escrow_id).after_partial_refund(refund_amount, now),
                    )
                },
            },
    {
        if refund_amount <= 0 {
            return Err(Error::InvalidRefundAmount);
        }
        if self.reentrancy_guard {
            return Err(Error::UnauthorizedCaller);
        }
        let at = match self.slot(escrow_id) {
            Some(at) => at,
            None => {
                return Err(Error::EscrowNotFound);
            },
        };
        let rate = self.processing_fee_percentage;
        let r = self.escrows[at].refund_partial(caller, &self.admin, rate, refund_amount, now);
        proof {
            assert(self.escrows@
                =~= old(self).escrows@.update(at as int, self.escrows@[at as int]));
            if self.escrows@[at as int] == old(self).escrows@[at as int] {
                assert(self.escrows@ =~= old(self).escrows@);
            }
        }
        r
    }
}

} // verus!
