//! A single escrow and the steps of its lifecycle: deposit, approval,
//! release and refund, in full or in part.

use vstd::prelude::*;
use crate::address::{Address, Asset};
use crate::conditions::{Condition, ConditionOperator, Facts, ReleaseCondition};
use crate::error::Error;
use crate::math::{basis_point_share, lemma_share_bounds, share_fits, share_of};

verus! {

#[derive(Clone, Copy, PartialEq, Eq, Debug, Structural)]
pub enum EscrowStatus {
    Pending,
    Funded,
    Approved,
    Released,
    Refunded,
    Expired,
}

#[derive(Clone, Copy, PartialEq, Eq, Debug, Structural)]
pub enum RefundReason {
    Expiration,
    Dispute,
    UnmetConditions,
    SenderRequest,
    AdminAction,
}

/// Funds held in custody until they are released to the recipient or
/// refunded to the sender.
#[derive(Clone, Debug, PartialEq, Eq)]
pub struct Escrow {
    pub sender: Address,
    pub recipient: Address,
    pub amount: i128,
    pub deposited_amount: i128,
    pub released_amount: i128,
    pub refunded_amount: i128,
    pub asset: Asset,
    pub release_conditions: ReleaseCondition,
    pub status: EscrowStatus,
    pub created_at: u64,
    pub last_deposit_at: u64,
    pub release_timestamp: u64,
    pub refund_timestamp: u64,
    pub escrow_id: u64,
    pub memo: String,
    pub allow_partial_release: bool,
    pub multi_party_enabled: bool,
    pub kyc_compliant: bool,
}

/// The transfers out of custody that a release or a refund calls for:
/// `amount` to `beneficiary`, and `fee` to `fee_collector` unless the fee is
/// zero.
#[derive(Clone, Debug, PartialEq, Eq)]
pub struct Payout {
    pub beneficiary: Address,
    pub amount: i128,
    pub fee_collector: Address,
    pub fee: i128,
}

impl Escrow {
    /// The running totals are in order: a positive amount is asked for, no
    /// more is deposited than asked for, and neither more is released nor
    /// more is refunded than is deposited.
    pub open spec fn wf(&self) -> bool {
        &&& 0 < self.amount
        &&& 0 <= self.released_amount <= self.deposited_amount <= self.amount
        &&& 0 <= self.refunded_amount <= self.deposited_amount
    }

    /// Whether the running totals are in order.
    pub fn is_well_formed(&self) -> (ok: bool)
        ensures
            ok == self.wf(),
    {
        0 < self.amount && 0 <= self.released_amount && self.released_amount
            <= self.deposited_amount && self.deposited_amount <= self.amount && 0
            <= self.refunded_amount && self.refunded_amount <= self.deposited_amount
    }

    /// What has left custody does not exceed what came in.
    pub open spec fn conserved(&self) -> bool {
        self.released_amount + self.refunded_amount <= self.deposited_amount
    }

    /// What is deposited and not released.
    pub open spec fn unreleased(&self) -> int {
        self.deposited_amount - self.released_amount
    }

    /// What is deposited and neither released nor refunded.
    pub open spec fn refundable(&self) -> int {
        self.deposited_amount - self.released_amount - self.refunded_amount
    }

    /// Whether `caller` may ask for a release, in full or in part: the
    /// recipient, the administrator and the sender may.
    pub open spec fn may_release(&self, caller: Seq<char>, admin: Seq<char>) -> bool {
        caller == self.recipient@ || caller == admin || caller == self.sender@
    }

    /// Whether `now` lies after the expiration.
    pub open spec fn lapsed(&self, now: u64) -> bool {
        now > self.release_conditions.expiration_timestamp
    }

    /// The escrow after a deposit of `amount` at `now`.
    pub open spec fn after_deposit(&self, amount: i128, now: u64) -> Escrow {
        Escrow {
            deposited_amount: (self.deposited_amount + amount) as i128,
            last_deposit_at: now,
            status: if self.deposited_amount + amount == self.amount {
                EscrowStatus::Funded
            } else {
                self.status
            },
            ..*self
        }
    }

    /// The escrow with other release terms.
    pub open spec fn with_terms(&self, terms: ReleaseCondition) -> Escrow {
        Escrow { release_conditions: terms, ..*self }
    }

    /// What the escrow's conditions are judged against at `now`, given
    /// `proof_data`.
    pub open spec fn facts(&self, now: u64, proof_data: i128) -> Facts {
        self.release_conditions.facts_at(now, proof_data, self.kyc_compliant)
    }

    /// The escrow with another status.
    pub open spec fn with_status(&self, status: EscrowStatus) -> Escrow {
        Escrow { status, ..*self }
    }

    /// Whether the escrow has come to its end: it is released, refunded or
    /// expired, and keeps that status.
    pub open spec fn terminal(&self) -> bool {
        self.status == EscrowStatus::Released || self.status == EscrowStatus::Refunded
            || self.status == EscrowStatus::Expired
    }

    /// The escrow after it is found to have lapsed: expired, unless it is
    /// released, which is final.
    pub open spec fn found_lapsed(&self) -> Escrow {
        if self.status == EscrowStatus::Released {
            *self
        } else {
            self.with_status(EscrowStatus::Expired)
        }
    }

    /// The escrow after a full release at `now`.
    pub open spec fn after_release(&self, now: u64) -> Escrow {
        Escrow {
            released_amount: self.deposited_amount,
            status: EscrowStatus::Released,
            release_timestamp: now,
            ..*self
        }
    }

    /// The escrow after a release of `release_amount` at `now`.
    pub open spec fn after_partial_release(&self, release_amount: i128, now: u64) -> Escrow {
        Escrow {
            released_amount: (self.released_amount + release_amount) as i128,
            status: if self.released_amount + release_amount >= self.deposited_amount {
                EscrowStatus::Released
            } else {
                self.status
            },
            release_timestamp: now,
            ..*self
        }
    }

    /// The escrow after a full refund at `now`.
    pub open spec fn after_refund(&self, now: u64) -> Escrow {
        Escrow {
            refunded_amount: (self.deposited_amount - self.released_amount) as i128,
            status: EscrowStatus::Refunded,
            refund_timestamp: now,
            ..*self
        }
    }

    /// The escrow after a refund of `refund_amount` at `now`.
    pub open spec fn after_partial_refund(&self, refund_amount: i128, now: u64) -> Escrow {
        Escrow {
            refunded_amount: (self.refunded_amount + refund_amount) as i128,
            status: if refund_amount >= self.refundable() {
                EscrowStatus::Refunded
            } else {
                self.status
            },
            refund_timestamp: now,
            ..*self
        }
    }

    /// The transfers that settle `gross` at `rate` basis points: the fee to
    /// `fee_collector`, the rest to `beneficiary`.
    pub open spec fn settles(
        payout: Payout,
        beneficiary: Address,
        fee_collector: Address,
        gross: int,
        rate: i128,
    ) -> bool {
        &&& payout.beneficiary == beneficiary
        &&& payout.fee_collector == fee_collector
        &&& payout.fee == share_of(gross, rate as int)
        &&& payout.amount == gross - payout.fee
        &&& payout.amount >= 0
        &&& payout.fee >= 0
    }

    /// Whether this is the escrow as it is opened: nothing deposited,
    /// released or refunded, pending, with the default release terms.
    pub open spec fn is_new(
        &self,
        escrow_id: u64,
        sender: Address,
        recipient: Address,
        amount: i128,
        asset: Asset,
        expiration_timestamp: u64,
        memo: String,
        kyc_compliant: bool,
        now: u64,
    ) -> bool {
        &&& self.escrow_id == escrow_id
        &&& self.sender == sender
        &&& self.recipient == recipient
        &&& self.amount == amount
        &&& self.deposited_amount == 0 && self.released_amount == 0 && self.refunded_amount == 0
        &&& self.asset == asset
        &&& self.memo == memo
        &&& self.status == EscrowStatus::Pending
        &&& self.created_at == now
        &&& self.last_deposit_at == 0 && self.release_timestamp == 0 && self.refund_timestamp == 0
        &&& !self.allow_partial_release && !self.multi_party_enabled
        &&& self.kyc_compliant == kyc_compliant
        &&& self.release_conditions.expiration_timestamp == expiration_timestamp
        &&& self.release_conditions.conditions@ == Seq::<Condition>::empty()
        &&& self.release_conditions.operator == ConditionOperator::And
        &&& self.release_conditions.min_approvals == 1
        &&& self.release_conditions.current_approvals == 0
        &&& !self.release_conditions.recipient_approval
        &&& !self.release_conditions.oracle_confirmation
    }

    /// A new escrow: nothing deposited, released or refunded, pending, with
    /// the default release terms.
    pub fn open(
        escrow_id: u64,
        sender: Address,
        recipient: Address,
        amount: i128,
        asset: Asset,
        expiration_timestamp: u64,
        memo: String,
        kyc_compliant: bool,
        now: u64,
    ) -> (e: Escrow)
        requires
            amount > 0,
        ensures
            e.wf(),
            e.conserved(),
            e.is_new(
                escrow_id,
                sender,
                recipient,
                amount,
                asset,
                expiration_timestamp,
                memo,
                kyc_compliant,
                now,
            ),
    {
        Escrow {
            sender,
            recipient,
            amount,
            deposited_amount: 0,
            released_amount: 0,
            refunded_amount: 0,
            asset,
            release_conditions: ReleaseCondition::new(expiration_timestamp),
            status: EscrowStatus::Pending,
            created_at: now,
            last_deposit_at: 0,
            release_timestamp: 0,
            refund_timestamp: 0,
            escrow_id,
            memo,
            allow_partial_release: false,
            multi_party_enabled: false,
            kyc_compliant,
        }
    }

    /// Why a deposit of `amount` by `caller` is refused, if it is.
    pub open spec fn deposit_refused(&self, caller: Seq<char>, amount: i128) -> Option<Error> {
        if amount <= 0 {
            Some(Error::InvalidAmount)
        } else if caller != self.sender@ {
            Some(Error::WrongSender)
        } else if self.status != EscrowStatus::Pending && self.status != EscrowStatus::Funded {
            Some(Error::EscrowNotPending)
        } else if self.deposited_amount + amount > self.amount {
            Some(Error::InsufficientAmount)
        } else {
            None
        }
    }

    /// Takes a deposit of `amount` from `caller`. The escrow becomes funded
    /// when the deposits reach the amount asked for.
    pub fn deposit(&mut self, caller: &Address, amount: i128, now: u64) -> (r: Result<(), Error>)
        requires
            old(self).wf(),
        ensures
            old(self).terminal() ==> final(self).status == old(self).status,
            final(self).wf(),
            old(self).conserved() ==> final(self).conserved(),
            match old(self).deposit_refused(caller@, amount) {
                Some(e) => r == Err::<(), Error>(e) && *final(self) == *old(self),
                None => r == Ok::<(), Error>(())
                    && *final(self) == old(self).after_deposit(amount, now),
            },
    {
        if amount <= 0 {
            return Err(Error::InvalidAmount);
        }
        if !caller.same_as(&self.sender) {
            return Err(Error::WrongSender);
        }
        if self.status != EscrowStatus::Pending && self.status != EscrowStatus::Funded {
            return Err(Error::EscrowNotPending);
        }
        // A sum that cannot be held is above every amount that can be asked for.
        let new_deposited = match self.deposited_amount.checked_add(amount) {
            Some(sum) => sum,
            None => {
                return Err(Error::InsufficientAmount);
            },
        };
        if new_deposited > self.amount {
            return Err(Error::InsufficientAmount);
        }
        self.deposited_amount = new_deposited;
        self.last_deposit_at = now;
        if self.deposited_amount == self.amount {
            self.status = EscrowStatus::Funded;
        }
        Ok(())
    }

    /// Approves a funded escrow; `InvalidStatus` in any other status.
    pub fn approve(&mut self) -> (r: Result<(), Error>)
        ensures
            old(self).terminal() ==> final(self).status == old(self).status,
            old(self).status == EscrowStatus::Funded ==> r == Ok::<(), Error>(()) && *final(self)
                == old(self).with_status(EscrowStatus::Approved),
            old(self).status != EscrowStatus::Funded ==> r == Err::<(), Error>(Error::InvalidStatus)
                && *final(self) == *old(self),
    {
        if self.status != EscrowStatus::Funded {
            return Err(Error::InvalidStatus);
        }
        self.status = EscrowStatus::Approved;
        Ok(())
    }

    /// Allows partial releases from now on; only the sender may.
    pub fn enable_partial_release(&mut self, caller: &Address) -> (r: Result<(), Error>)
        ensures
            old(self).terminal() ==> final(self).status == old(self).status,
            caller@ == old(self).sender@ ==> r == Ok::<(), Error>(()) && *final(self) == (Escrow {
                allow_partial_release: true,
                ..*old(self)
            }),
            caller@ != old(self).sender@
                ==> r == Err::<(), Error>(Error::Unauthorized) && *final(self) == *old(self),
    {
        if !caller.same_as(&self.sender) {
            return Err(Error::Unauthorized);
        }
        self.allow_partial_release = true;
        Ok(())
    }

    /// Why a full release asked by `caller` at `now` is refused, if it is.
    /// `quorum` says whether the approvals required of a multi-party escrow
    /// stand; `rate` is the platform fee in basis points.
    pub open spec fn release_refused(
        &self,
        caller: Seq<char>,
        admin: Seq<char>,
        rate: i128,
        quorum: bool,
        now: u64,
    ) -> Option<Error> {
        if self.status != EscrowStatus::Approved && self.status != EscrowStatus::Funded {
            Some(Error::NotApproved)
        } else if self.multi_party_enabled && !quorum {
            Some(Error::QuorumNotMet)
        } else if self.lapsed(now) {
            Some(Error::Expired)
        } else if !self.may_release(caller, admin) {
            Some(Error::UnauthorizedCaller)
        } else if self.deposited_amount == 0 || self.unreleased() <= 0 {
            Some(Error::InsufficientFunds)
        } else if !share_fits(self.unreleased(), rate as int) {
            Some(Error::ArithmeticOverflow)
        } else if self.unreleased() - share_of(self.unreleased(), rate as int) <= 0 {
            Some(Error::InsufficientAmount)
        } else {
            None
        }
    }

    /// Releases everything that is deposited and not yet released: the fee
    /// at `rate` basis points to `admin`, the rest to the recipient.
    ///
    /// A refusal leaves the escrow as it was, but for `Expired`, which marks
    /// the escrow expired.
    pub fn release(
        &mut self,
        caller: &Address,
        admin: &Address,
        rate: i128,
        quorum: bool,
        now: u64,
    ) -> (r:
        Result<Payout, Error>)
        requires
            old(self).wf(),
            0 <= rate <= 10000,
        ensures
            old(self).terminal() ==> final(self).status == old(self).status,
            final(self).wf(),
            match old(self).release_refused(caller@, admin@, rate, quorum, now) {
                Some(Error::Expired) => r == Err::<Payout, Error>(Error::Expired) && *final(self)
                    == old(self).with_status(EscrowStatus::Expired),
                Some(e) => r == Err::<Payout, Error>(e) && *final(self) == *old(self),
                None => {
                    &&& r is Ok
                    &&& Escrow::settles(
                        r->Ok_0,
                        old(self).recipient,
                        *admin,
                        old(self).unreleased() as int,
                        rate,
                    )
                    &&& r->Ok_0.amount > 0
                    &&& *final(self) == old(self).after_release(now)
                },
            },
            r is Err && old(self).conserved() ==> final(self).conserved(),
            r is Ok ==> (final(self).conserved() <==> old(self).refunded_amount == 0),
    {
        if self.status != EscrowStatus::Approved && self.status != EscrowStatus::Funded {
            return Err(Error::NotApproved);
        }
        if self.multi_party_enabled && !quorum {
            return Err(Error::QuorumNotMet);
        }
        if now > self.release_conditions.expiration_timestamp {
            self.status = EscrowStatus::Expired;
            return Err(Error::Expired);
        }
        if !caller.same_as(&self.recipient) && !caller.same_as(admin) && !caller.same_as(
            &self.sender,
        ) {
            return Err(Error::UnauthorizedCaller);
        }
        if self.deposited_amount == 0 {
            return Err(Error::InsufficientFunds);
        }
        let available = self.deposited_amount - self.released_amount;
        if available <= 0 {
            return Err(Error::InsufficientFunds);
        }
        let fee = match basis_point_share(available, rate) {
            Some(fee) => fee,
            None => {
                return Err(Error::ArithmeticOverflow);
            },
        };
        proof {
            lemma_share_bounds(available as int, rate as int);
        }
        let recipient_amount = available - fee;
        if recipient_amount <= 0 {
            return Err(Error::InsufficientAmount);
        }
        self.released_amount = self.released_amount + available;
        self.status = EscrowStatus::Released;
        self.release_timestamp = now;
        Ok(
            Payout {
                beneficiary: self.recipient.duplicate(),
                amount: recipient_amount,
                fee_collector: admin.duplicate(),
                fee,
            },
        )
    }

    /// Why a release of `release_amount` asked by `caller` at `now` is
    /// refused, if it is.
    pub open spec fn partial_release_refused(
        &self,
        caller: Seq<char>,
        admin: Seq<char>,
        rate: i128,
        release_amount: i128,
        now: u64,
    ) -> Option<Error> {
        if release_amount <= 0 {
            Some(Error::InvalidAmount)
        } else if !self.allow_partial_release {
            Some(Error::PartialReleaseNotAllowed)
        } else if self.status != EscrowStatus::Approved && self.status != EscrowStatus::Funded
            && self.status != EscrowStatus::Released {
            Some(Error::InvalidStatus)
        } else if self.lapsed(now) {
            Some(Error::Expired)
        } else if !self.may_release(caller, admin) {
            Some(Error::UnauthorizedCaller)
        } else if release_amount > self.unreleased() {
            Some(Error::InsufficientFunds)
        } else if !share_fits(release_amount as int, rate as int) {
            Some(Error::ArithmeticOverflow)
        } else {
            None
        }
    }

    /// Releases `release_amount` of what is deposited and not yet released:
    /// the fee at `rate` basis points to `admin`, the rest to the recipient.
    /// The escrow becomes released once nothing is left to release.
    ///
    /// A refusal leaves the escrow as it was, but for `Expired`, which marks
    /// the escrow expired unless it is released already.
    pub fn release_partial(
        &mut self,
        caller: &Address,
        admin: &Address,
        rate: i128,
        release_amount: i128,
        now: u64,
    ) -> (r: Result<Payout, Error>)
        requires
            old(self).wf(),
            0 <= rate <= 10000,
        ensures
            old(self).terminal() ==> final(self).status == old(self).status,
            final(self).wf(),
            match old(self).partial_release_refused(caller@, admin@, rate, release_amount, now) {
                Some(Error::Expired) => r == Err::<Payout, Error>(Error::Expired) && *final(self)
                    == old(self).found_lapsed(),
                Some(e) => r == Err::<Payout, Error>(e) && *final(self) == *old(self),
                None => {
                    &&& r is Ok
                    &&& Escrow::settles(
                        r->Ok_0,
                        old(self).recipient,
                        *admin,
                        release_amount as int,
                        rate,
                    )
                    &&& *final(self) == old(self).after_partial_release(release_amount, now)
                },
            },
            r is Err && old(self).conserved() ==> final(self).conserved(),
            r is Ok ==> (final(self).conserved() <==> release_amount <= old(self).refundable()),
    {
        if release_amount <= 0 {
            return Err(Error::InvalidAmount);
        }
        if !self.allow_partial_release {
            return Err(Error::PartialReleaseNotAllowed);
        }
        if self.status != EscrowStatus::Approved && self.status != EscrowStatus::Funded
            && self.status != EscrowStatus::Released {
            return Err(Error::InvalidStatus);
        }
        if now > self.release_conditions.expiration_timestamp {
            if self.status != EscrowStatus::Released {
                self.status = EscrowStatus::Expired;
            }
            return Err(Error::Expired);
        }
        if !caller.same_as(&self.recipient) && !caller.same_as(admin) && !caller.same_as(
            &self.sender,
        ) {
            return Err(Error::UnauthorizedCaller);
        }
        let available = self.deposited_amount - self.released_amount;
        if release_amount > available {
            return Err(Error::InsufficientFunds);
        }
        let fee = match basis_point_share(release_amount, rate) {
            Some(fee) => fee,
            None => {
                return Err(Error::ArithmeticOverflow);
            },
        };
        proof {
            lemma_share_bounds(release_amount as int, rate as int);
        }
        let recipient_amount = release_amount - fee;
        self.released_amount = self.released_amount + release_amount;
        if self.released_amount >= self.deposited_amount {
            self.status = EscrowStatus::Released;
        }
        self.release_timestamp = now;
        Ok(
            Payout {
                beneficiary: self.recipient.duplicate(),
                amount: recipient_amount,
                fee_collector: admin.duplicate(),
                fee,
            },
        )
    }

    /// Why a full refund asked by `caller` at `now` is refused, if it is.
    /// `quorum` says whether the approvals required of a multi-party escrow
    /// stand; `rate` is the processing fee in basis points.
    pub open spec fn refund_refused(
        &self,
        caller: Seq<char>,
        admin: Seq<char>,
        rate: i128,
        quorum: bool,
        reason: RefundReason,
        now: u64,
    ) -> Option<Error> {
        if caller != self.sender@ && caller != admin {
            Some(Error::UnauthorizedRefund)
        } else if self.status == EscrowStatus::Released {
            Some(Error::AlreadyReleased)
        } else if self.status == EscrowStatus::Refunded {
            Some(Error::AlreadyRefunded)
        } else if self.status == EscrowStatus::Expired {
            Some(Error::InvalidStatus)
        } else if self.multi_party_enabled && !quorum {
            Some(Error::QuorumNotMet)
        } else if reason == RefundReason::Expiration && !self.lapsed(now) {
            Some(Error::NotExpired)
        } else if self.refundable() <= 0 {
            Some(Error::NoFundsAvailable)
        } else if !share_fits(self.refundable(), rate as int) {
            Some(Error::ArithmeticOverflow)
        } else {
            None
        }
    }

    /// Refunds everything that is deposited and neither released nor
    /// refunded: the processing fee at `rate` basis points to `admin`, the
    /// rest to the sender. A refusal leaves the escrow as it was.
    pub fn refund(
        &mut self,
        caller: &Address,
        admin: &Address,
        rate: i128,
        quorum: bool,
        reason: RefundReason,
        now: u64,
    ) -> (r: Result<Payout, Error>)
        requires
            old(self).wf(),
            0 <= rate <= 10000,
        ensures
            old(self).terminal() ==> final(self).status == old(self).status,
            final(self).wf(),
            old(self).conserved() ==> final(self).conserved(),
            match old(self).refund_refused(caller@, admin@, rate, quorum, reason, now) {
                Some(e) => r == Err::<Payout, Error>(e) && *final(self) == *old(self),
                None => {
                    &&& r is Ok
                    &&& Escrow::settles(
                        r->Ok_0,
                        old(self).sender,
                        *admin,
                        old(self).refundable() as int,
                        rate,
                    )
                    &&& *final(self) == old(self).after_refund(now)
                },
            },
    {
        if !caller.same_as(&self.sender) && !caller.same_as(admin) {
            return Err(Error::UnauthorizedRefund);
        }
        if self.status == EscrowStatus::Released {
            return Err(Error::AlreadyReleased);
        }
        if self.status == EscrowStatus::Refunded {
            return Err(Error::AlreadyRefunded);
        }
        if self.status != EscrowStatus::Pending && self.status != EscrowStatus::Funded
            && self.status != EscrowStatus::Approved {
            return Err(Error::InvalidStatus);
        }
        if self.multi_party_enabled && !quorum {
            return Err(Error::QuorumNotMet);
        }
        if reason == RefundReason::Expiration {
            if now <= self.release_conditions.expiration_timestamp {
                return Err(Error::NotExpired);
            }
        }
        let available = self.deposited_amount - self.released_amount - self.refunded_amount;
        if available <= 0 {
            return Err(Error::NoFundsAvailable);
        }
        let fee = match basis_point_share(available, rate) {
            Some(fee) => fee,
            None => {
                return Err(Error::ArithmeticOverflow);
            },
        };
        proof {
            lemma_share_bounds(available as int, rate as int);
        }
        let refund_amount = available - fee;
        self.refunded_amount = self.refunded_amount + available;
        self.status = EscrowStatus::Refunded;
        self.refund_timestamp = now;
        Ok(
            Payout {
                beneficiary: self.sender.duplicate(),
                amount: refund_amount,
                fee_collector: admin.duplicate(),
                fee,
            },
        )
    }

    /// Why a refund of `refund_amount` asked by `caller` is refused, if it is.
    pub open spec fn partial_refund_refused(
        &self,
        caller: Seq<char>,
        admin: Seq<char>,
        rate: i128,
        refund_amount: i128,
    ) -> Option<Error> {
        if refund_amount <= 0 {
            Some(Error::InvalidRefundAmount)
        } else if caller != self.sender@ && caller != admin {
            Some(Error::UnauthorizedRefund)
        } else if self.status == EscrowStatus::Released {
            Some(Error::AlreadyReleased)
        } else if self.status == EscrowStatus::Expired {
            Some(Error::InvalidStatus)
        } else if refund_amount > self.refundable() {
            Some(Error::InsufficientFunds)
        } else if !share_fits(refund_amount as int, rate as int) {
            Some(Error::ArithmeticOverflow)
        } else {
            None
        }
    }

    /// Refunds `refund_amount` of what is deposited and neither released nor
    /// refunded: the processing fee at `rate` basis points to `admin`, the
    /// rest to the sender. The escrow becomes refunded once nothing is left.
    /// A refusal leaves the escrow as it was.
    pub fn refund_partial(
        &mut self,
        caller: &Address,
        admin: &Address,
        rate: i128,
        refund_amount: i128,
        now: u64,
    ) -> (r: Result<Payout, Error>)
        requires
            old(self).wf(),
            0 <= rate <= 10000,
        ensures
            old(self).terminal() ==> final(self).status == old(self).status,
            final(self).wf(),
            old(self).conserved() ==> final(self).conserved(),
            match old(self).partial_refund_refused(caller@, admin@, rate, refund_amount) {
                Some(e) => r == Err::<Payout, Error>(e) && *final(self) == *old(self),
                None => {
                    &&& r is Ok
                    &&& Escrow::settles(
                        r->Ok_0,
                        old(self).sender,
                        *admin,
                        refund_amount as int,
                        rate,
                    )
                    &&& *final(self) == old(self).after_partial_refund(refund_amount, now)
                },
            },
    {
        if refund_amount <= 0 {
            return Err(Error::InvalidRefundAmount);
        }
        if !caller.same_as(&self.sender) && !caller.same_as(admin) {
            return Err(Error::UnauthorizedRefund);
        }
        if self.status == EscrowStatus::Released {
            return Err(Error::AlreadyReleased);
        }
        if self.status != EscrowStatus::Pending && self.status != EscrowStatus::Funded
            && self.status != EscrowStatus::Approved && self.status != EscrowStatus::Refunded {
            return Err(Error::InvalidStatus);
        }
        let available = self.deposited_amount - self.released_amount - self.refunded_amount;
        if refund_amount > available {
            return Err(Error::InsufficientFunds);
        }
        let fee = match basis_point_share(refund_amount, rate) {
            Some(fee) => fee,
            None => {
                return Err(Error::ArithmeticOverflow);
            },
        };
        proof {
            lemma_share_bounds(refund_amount as int, rate as int);
        }
        let net_refund = refund_amount - fee;
        self.refunded_amount = self.refunded_amount + refund_amount;
        self.refund_timestamp = now;
        let total_processed = self.released_amount + self.refunded_amount;
        if total_processed >= self.deposited_amount {
            self.status = EscrowStatus::Refunded;
        }
        Ok(
            Payout {
                beneficiary: self.sender.duplicate(),
                amount: net_refund,
                fee_collector: admin.duplicate(),
                fee,
            },
        )
    }
}

} // verus!
