//! Remittances and invoices on the hub.

use vstd::prelude::*;
use crate::address::{Address, Asset};
use crate::aml::{screen_transaction, screening_outcome, AmlScreeningResult, AmlStatus};
use crate::math::{basis_point_share, share_fits, share_of};
use crate::oracle::{converted_amount, get_conversion_rate, AssetPair, CachedRate};
use crate::registry::{lemma_value_replaced, stored};
use crate::remittance_hub::{
    HubView,
    Invoice,
    InvoiceStatus,
    RemittanceData,
    RemittanceError,
    RemittanceHubContract,
    RemittanceStatus,
    HUB_FEE_RATE,
};
use crate::upgradeable::is_paused;

verus! {

/// The asset in which invoices are valued.
pub open spec fn settlement_asset() -> Seq<char> {
    "USD"@
}

/// The fee that the hub charges on `amount`: 250 basis points, or nothing
/// where the product cannot be held.
pub open spec fn hub_fee(amount: i128) -> i128 {
    if share_fits(amount as int, 250) {
        share_of(amount as int, 250) as i128
    } else {
        0
    }
}

/// What is due on `amount`: the amount and the fee, or the amount alone
/// where the sum cannot be held.
pub open spec fn total_due(amount: i128) -> i128 {
    if amount + hub_fee(amount) > i128::MAX {
        amount
    } else {
        (amount + hub_fee(amount)) as i128
    }
}

/// The fee that the hub charges on `amount`.
pub fn charge(amount: i128) -> (fee: i128)
    ensures
        fee == hub_fee(amount),
{
    match basis_point_share(amount, HUB_FEE_RATE) {
        Some(fee) => fee,
        None => 0,
    }
}

/// What is due on a positive `amount`.
pub fn due(amount: i128) -> (total: i128)
    requires
        amount > 0,
    ensures
        total == total_due(amount),
{
    proof {
        if share_fits(amount as int, 250) {
            crate::math::lemma_share_bounds(amount as int, 250);
        }
    }
    let fee = charge(amount);
    match amount.checked_add(fee) {
        Some(total) => total,
        None => amount,
    }
}

/// What the screening of a remittance makes of it: its status, and what is
/// flagged of it, if anything.
///
/// With no screening configured the remittance is pending. A screening that
/// flags it holds it as flagged under the screening's result; one that the
/// oracle did not answer holds it for review.
pub open spec fn screened(
    config: Option<crate::aml::AmlConfig>,
    from: Address,
    to: Address,
    amount: i128,
    reply: Option<u32>,
    now: u64,
) -> (RemittanceStatus, Option<AmlScreeningResult>) {
    match config {
        None => (RemittanceStatus::Pending, None),
        Some(c) => match screening_outcome(c, from, to, amount, reply, now) {
            Ok(result) => if result.status == AmlStatus::Flagged {
                (RemittanceStatus::Flagged, Some(result))
            } else {
                (RemittanceStatus::Pending, None)
            },
            Err(_) => (
                RemittanceStatus::Review,
                Some(
                    AmlScreeningResult {
                        sender: from,
                        recipient: to,
                        amount,
                        risk_score: 0,
                        status: AmlStatus::Reviewing,
                        timestamp: now,
                    },
                ),
            ),
        },
    }
}

impl HubView {
    /// The value in the settlement asset of `amount` in the asset
    /// `asset_code`: the amount itself where that is the settlement asset,
    /// where no oracle is configured, or where the conversion fails.
    pub open spec fn settlement_value(
        self,
        amount: i128,
        asset_code: Seq<char>,
        reply: Option<CachedRate>,
        now: u64,
    ) -> i128 {
        if asset_code == settlement_asset() || self.oracle_config is None {
            amount
        } else {
            match converted_amount(
                reply,
                false,
                amount,
                self.oracle_config->0.max_staleness,
                stored(self.cached_rates, (asset_code, settlement_asset())),
                now,
            ) {
                Ok(converted) => converted,
                Err(_) => amount,
            }
        }
    }

    /// The number of the next invoice: one more than the last, or the last
    /// again once the numbers are used up.
    pub open spec fn next_invoice(self) -> u64 {
        if self.invoice_counter < u64::MAX {
            (self.invoice_counter + 1) as u64
        } else {
            self.invoice_counter
        }
    }
}

impl RemittanceHubContract {
    /// Records a remittance of `amount` in `currency` from `from` to `to`
    /// under the number of the ledger, `sequence`, and returns that number.
    ///
    /// `aml_reply` is the risk score that the screening oracle reported,
    /// `None` where it did not answer. `ContractPaused` while the hub is
    /// paused, `InvalidAmount` unless the amount is positive.
    pub fn send_remittance(
        &mut self,
        from: Address,
        to: Address,
        amount: i128,
        currency: String,
        sequence: u32,
        aml_reply: Option<u32>,
        now: u64,
    ) -> (r: Result<u64, RemittanceError>)
        requires
            old(self).wf(),
        ensures
            final(self).wf(),
            r == if old(self).upgrade.paused() {
                Err::<u64, RemittanceError>(RemittanceError::ContractPaused)
            } else if amount <= 0 {
                Err::<u64, RemittanceError>(RemittanceError::InvalidAmount)
            } else {
                Ok::<u64, RemittanceError>(sequence as u64)
            },
            r is Err ==> final(self)@ == old(self)@,
            r is Ok ==> {
                let (status, flag) = screened(
                    old(self).aml_config,
                    from,
                    to,
                    amount,
                    aml_reply,
                    now,
                );
                final(self)@ == (HubView {
                    remittances: old(self)@.remittances.insert(
                        sequence as u64,
                        RemittanceData { from, to, amount, currency, status },
                    ),
                    aml_flags: match flag {
                        Some(f) => old(self)@.aml_flags.insert(sequence as u64, f),
                        None => old(self)@.aml_flags,
                    },
                    ..old(self)@
                })
            },
    {
        if is_paused(&self.upgrade) {
            return Err(RemittanceError::ContractPaused);
        }
        if amount <= 0 {
            return Err(RemittanceError::InvalidAmount);
        }
        let remittance_id = sequence as u64;
        let mut status = RemittanceStatus::Pending;
        match &self.aml_config {
            None => {},
            Some(config) => {
                match screen_transaction(config, &from, &to, amount, aml_reply, now) {
                    Ok(result) => {
                        if result.status == AmlStatus::Flagged {
                            status = RemittanceStatus::Flagged;
                            self.aml_flags.set(remittance_id, result);
                        }
                    },
                    Err(_) => {
                        status = RemittanceStatus::Review;
                        let flag = AmlScreeningResult {
                            sender: from.duplicate(),
                            recipient: to.duplicate(),
                            amount,
                            risk_score: 0,
                            status: AmlStatus::Reviewing,
                            timestamp: now,
                        };
                        self.aml_flags.set(remittance_id, flag);
                    },
                }
            },
        }
        self.remittances.set(remittance_id, RemittanceData { from, to, amount, currency, status });
        Ok(remittance_id)
    }

    /// Why the remittance `id` may not be completed, if anything forbids it.
    pub open spec fn completion_refused(&self, id: u64) -> Option<RemittanceError> {
        match stored(self@.remittances, id) {
            None => Some(RemittanceError::NotFound),
            Some(remittance) => if remittance.status == RemittanceStatus::Flagged
                || remittance.status == RemittanceStatus::Review {
                Some(RemittanceError::AmlHighRisk)
            } else if remittance.status != RemittanceStatus::Pending {
                Some(RemittanceError::InvalidStatus)
            } else {
                None
            },
        }
    }

    /// Completes the pending remittance `remittance_id`.
    pub fn complete_remittance(&mut self, remittance_id: u64) -> (r: Result<(), RemittanceError>)
        requires
            old(self).wf(),
        ensures
            final(self).wf(),
            match old(self).completion_refused(remittance_id) {
                Some(e) => r == Err::<(), RemittanceError>(e) && final(self)@ == old(self)@,
                None => r == Ok::<(), RemittanceError>(()) && final(self)@ == (HubView {
                    remittances: old(self)@.remittances.insert(
                        remittance_id,
                        RemittanceData {
                            status: RemittanceStatus::Complete,
                            ..old(self)@.remittances[remittance_id]
                        },
                    ),
                    ..old(self)@
                }),
            },
    {
        let at = match self.remittances.find(&remittance_id) {
            Some(at) => at,
            None => {
                return Err(RemittanceError::NotFound);
            },
        };
        let status = self.remittances.values[at].status;
        if status == RemittanceStatus::Flagged || status == RemittanceStatus::Review {
            return Err(RemittanceError::AmlHighRisk);
        }
        if status != RemittanceStatus::Pending {
            return Err(RemittanceError::InvalidStatus);
        }
        self.remittances.values[at].status = RemittanceStatus::Complete;
        proof {
            lemma_value_replaced(old(self).remittances, self.remittances, at as int);
        }
        Ok(())
    }

    /// Why the flag on the remittance `id` may not be cleared by `caller`,
    /// if anything forbids it.
    pub open spec fn clearing_refused(
        &self,
        caller: Seq<char>,
        id: u64,
    ) -> Option<RemittanceError> {
        if !self.administered_by(caller) {
            Some(RemittanceError::Unauthorized)
        } else if !self@.aml_flags.contains_key(id) {
            Some(RemittanceError::AmlFlagNotFound)
        } else if !self@.remittances.contains_key(id) {
            Some(RemittanceError::NotFound)
        } else {
            None
        }
    }

    /// Clears the flag on the remittance `remittance_id`, which is pending
    /// again.
    pub fn clear_aml_flag(&mut self, caller: &Address, remittance_id: u64) -> (r: Result<
        (),
        RemittanceError,
    >)
        requires
            old(self).wf(),
        ensures
            final(self).wf(),
            match old(self).clearing_refused(caller@, remittance_id) {
                Some(e) => r == Err::<(), RemittanceError>(e) && final(self)@ == old(self)@,
                None => r == Ok::<(), RemittanceError>(()) && final(self)@ == (HubView {
                    aml_flags: old(self)@.aml_flags.insert(
                        remittance_id,
                        AmlScreeningResult {
                            status: AmlStatus::Cleared,
                            ..old(self)@.aml_flags[remittance_id]
                        },
                    ),
                    remittances: old(self)@.remittances.insert(
                        remittance_id,
                        RemittanceData {
                            status: RemittanceStatus::Pending,
                            ..old(self)@.remittances[remittance_id]
                        },
                    ),
                    ..old(self)@
                }),
            },
    {
        if !self.is_admin(caller) {
            return Err(RemittanceError::Unauthorized);
        }
        let flag_at = match self.aml_flags.find(&remittance_id) {
            Some(at) => at,
            None => {
                return Err(RemittanceError::AmlFlagNotFound);
            },
        };
        let at = match self.remittances.find(&remittance_id) {
            Some(at) => at,
            None => {
                return Err(RemittanceError::NotFound);
            },
        };
        self.aml_flags.values[flag_at].status = AmlStatus::Cleared;
        self.remittances.values[at].status = RemittanceStatus::Pending;
        proof {
            lemma_value_replaced(old(self).aml_flags, self.aml_flags, flag_at as int);
            lemma_value_replaced(old(self).remittances, self.remittances, at as int);
        }
        Ok(())
    }

    /// The value of `amount` in the settlement asset.
    fn convert_with_oracle(
        &self,
        amount: i128,
        asset_code: &String,
        reply: Option<CachedRate>,
        now: u64,
    ) -> (value:
        i128)
        requires
            self.wf(),
        ensures
            value == self@.settlement_value(amount, asset_code@, reply, now),
    {
        let target = "USD".to_owned();
        if *asset_code == target {
            return amount;
        }
        match &self.oracle_config {
            Some(config) => {
                let pair = AssetPair::of(asset_code, &target);
                let cached = match self.cached_rates.get(&pair) {
                    Some(cache) => Some(cache.duplicate()),
                    None => None,
                };
                match get_conversion_rate(
                    reply,
                    asset_code,
                    &target,
                    amount,
                    config.max_staleness,
                    cached,
                    now,
                ) {
                    Ok(conversion) => conversion.converted_amount,
                    Err(_) => amount,
                }
            },
            None => amount,
        }
    }

    /// Issues an invoice for `amount` in `asset`, due at `due_date`, and
    /// returns its number. An invoice with an `escrow_id` other than 0 is
    /// linked to that escrow.
    ///
    /// `oracle_reply` is the primary oracle's quote from the asset to the
    /// settlement asset, `None` where it did not answer. `ContractPaused`
    /// while the hub is paused, `InvalidAmount` unless the amount is
    /// positive, `DueDateInPast` unless the due date lies ahead.
    pub fn generate_invoice(
        &mut self,
        sender: Address,
        recipient: Address,
        amount: i128,
        asset: Asset,
        due_date: u64,
        description: String,
        escrow_id: u64,
        memo: String,
        oracle_reply: Option<CachedRate>,
        now: u64,
    ) -> (r: Result<u64, RemittanceError>)
        requires
            old(self).wf(),
        ensures
            final(self).wf(),
            r == if old(self).upgrade.paused() {
                Err::<u64, RemittanceError>(RemittanceError::ContractPaused)
            } else if amount <= 0 {
                Err::<u64, RemittanceError>(RemittanceError::InvalidAmount)
            } else if due_date <= now {
                Err::<u64, RemittanceError>(RemittanceError::DueDateInPast)
            } else {
                Ok::<u64, RemittanceError>(old(self)@.next_invoice())
            },
            r is Err ==> final(self)@ == old(self)@,
            r is Ok ==> final(self)@ == (HubView {
                invoice_counter: r->Ok_0,
                invoices: old(self)@.invoices.insert(
                    r->Ok_0,
                    Invoice {
                        invoice_id: r->Ok_0,
                        sender,
                        recipient,
                        amount,
                        asset,
                        converted_amount: old(self)@.settlement_value(
                            amount,
                            asset.code@,
                            oracle_reply,
                            now,
                        ),
                        fees: hub_fee(amount),
                        total_due: total_due(amount),
                        status: InvoiceStatus::Unpaid,
                        created_at: now,
                        due_date,
                        paid_at: 0,
                        description,
                        escrow_id,
                        memo,
                    },
                ),
                escrow_invoices: if escrow_id > 0 {
                    old(self)@.escrow_invoices.insert(escrow_id, r->Ok_0)
                } else {
                    old(self)@.escrow_invoices
                },
                ..old(self)@
            }),
    {
        if is_paused(&self.upgrade) {
            return Err(RemittanceError::ContractPaused);
        }
        if amount <= 0 {
            return Err(RemittanceError::InvalidAmount);
        }
        if due_date <= now {
            return Err(RemittanceError::DueDateInPast);
        }
        let counter = match self.invoice_counter.checked_add(1) {
            Some(next) => next,
            None => self.invoice_counter,
        };
        let converted_amount = self.convert_with_oracle(amount, &asset.code, oracle_reply, now);
        let fees = charge(amount);
        let total_due = due(amount);
        let invoice = Invoice {
            invoice_id: counter,
            sender,
            recipient,
            amount,
            asset,
            converted_amount,
            fees,
            total_due,
            status: InvoiceStatus::Unpaid,
            created_at: now,
            due_date,
            paid_at: 0,
            description,
            escrow_id,
            memo,
        };
        self.invoices.set(counter, invoice);
        self.invoice_counter = counter;
        if escrow_id > 0 {
            self.escrow_invoices.set(escrow_id, counter);
        }
        Ok(counter)
    }

    /// The invoice `invoice_id`, if there is one.
    pub fn get_invoice(&self, invoice_id: u64) -> (found: Option<&Invoice>)
        requires
            self.wf(),
        ensures
            match found {
                Some(invoice) => stored(self@.invoices, invoice_id) == Some(*invoice),
                None => stored(self@.invoices, invoice_id) is None,
            },
    {
        self.invoices.get(&invoice_id)
    }

    /// The number of the invoice linked to the escrow `escrow_id`, if one
    /// is.
    pub fn get_invoice_by_escrow(&self, escrow_id: u64) -> (found: Option<u64>)
        requires
            self.wf(),
        ensures
            found == stored(self@.escrow_invoices, escrow_id),
    {
        match self.escrow_invoices.get(&escrow_id) {
            Some(invoice_id) => Some(*invoice_id),
            None => None,
        }
    }

    /// Why the invoice `id` may not be marked paid by `caller`, if anything
    /// forbids it.
    pub open spec fn payment_refused(&self, id: u64, caller: Seq<char>) -> Option<RemittanceError> {
        if self.upgrade.paused() {
            Some(RemittanceError::ContractPaused)
        } else {
            match stored(self@.invoices, id) {
                None => Some(RemittanceError::InvoiceNotFound),
                Some(invoice) => if invoice.status == InvoiceStatus::Paid {
                    Some(RemittanceError::InvalidInvoiceStatus)
                } else if caller != invoice.sender@ && caller != invoice.recipient@ {
                    Some(RemittanceError::Unauthorized)
                } else {
                    None
                },
            }
        }
    }

    /// Marks the invoice `invoice_id` as paid at `now`.
    pub fn mark_invoice_paid(&mut self, invoice_id: u64, caller: &Address, now: u64) -> (r: Result<
        (),
        RemittanceError,
    >)
        requires
            old(self).wf(),
        ensures
            final(self).wf(),
            match old(self).payment_refused(invoice_id, caller@) {
                Some(e) => r == Err::<(), RemittanceError>(e) && final(self)@ == old(self)@,
                None => r == Ok::<(), RemittanceError>(()) && final(self)@ == (HubView {
                    invoices: old(self)@.invoices.insert(
                        invoice_id,
                        Invoice {
                            status: InvoiceStatus::Paid,
                            paid_at: now,
                            ..old(self)@.invoices[invoice_id]
                        },
                    ),
                    ..old(self)@
                }),
            },
    {
        if is_paused(&self.upgrade) {
            return Err(RemittanceError::ContractPaused);
        }
        let at = match self.invoices.find(&invoice_id) {
            Some(at) => at,
            None => {
                return Err(RemittanceError::InvoiceNotFound);
            },
        };
        if self.invoices.values[at].status == InvoiceStatus::Paid {
            return Err(RemittanceError::InvalidInvoiceStatus);
        }
        if !caller.same_as(&self.invoices.values[at].sender) && !caller.same_as(
            &self.invoices.values[at].recipient,
        ) {
            return Err(RemittanceError::Unauthorized);
        }
        self.invoices.values[at].status = InvoiceStatus::Paid;
        self.invoices.values[at].paid_at = now;
        proof {
            assert(self.invoices.values@ =~= old(self).invoices.values@.update(
                at as int,
                self.invoices.values@[at as int],
            ));
            lemma_value_replaced(old(self).invoices, self.invoices, at as int);
        }
        Ok(())
    }

    /// Why the invoice `id` may not be marked overdue at `now`, if anything
    /// forbids it.
    pub open spec fn overdue_refused(&self, id: u64, now: u64) -> Option<RemittanceError> {
        match stored(self@.invoices, id) {
            None => Some(RemittanceError::InvoiceNotFound),
            Some(invoice) => if now <= invoice.due_date || invoice.status == InvoiceStatus::Paid {
                Some(RemittanceError::InvalidInvoiceStatus)
            } else {
                None
            },
        }
    }

    /// Marks the invoice `invoice_id` as overdue, its due date being past.
    pub fn mark_invoice_overdue(&mut self, invoice_id: u64, now: u64) -> (r: Result<
        (),
        RemittanceError,
    >)
        requires
            old(self).wf(),
        ensures
            final(self).wf(),
            match old(self).overdue_refused(invoice_id, now) {
                Some(e) => r == Err::<(), RemittanceError>(e) && final(self)@ == old(self)@,
                None => r == Ok::<(), RemittanceError>(()) && final(self)@ == (HubView {
                    invoices: old(self)@.invoices.insert(
                        invoice_id,
                        Invoice {
                            status: InvoiceStatus::Overdue,
                            ..old(self)@.invoices[invoice_id]
                        },
                    ),
                    ..old(self)@
                }),
            },
    {
        let at = match self.invoices.find(&invoice_id) {
            Some(at) => at,
            None => {
                return Err(RemittanceError::InvoiceNotFound);
            },
        };
        if now <= self.invoices.values[at].due_date {
            return Err(RemittanceError::InvalidInvoiceStatus);
        }
        if self.invoices.values[at].status == InvoiceStatus::Paid {
            return Err(RemittanceError::InvalidInvoiceStatus);
        }
        self.invoices.values[at].status = InvoiceStatus::Overdue;
        proof {
            assert(self.invoices.values@ =~= old(self).invoices.values@.update(
                at as int,
                self.invoices.values@[at as int],
            ));
            lemma_value_replaced(old(self).invoices, self.invoices, at as int);
        }
        Ok(())
    }

    /// Why the invoice `id` may not be cancelled by `caller`, if anything
    /// forbids it.
    pub open spec fn cancellation_refused(&self, id: u64, caller: Seq<char>) -> Option<
        RemittanceError,
    > {
        match stored(self@.invoices, id) {
            None => Some(RemittanceError::InvoiceNotFound),
            Some(invoice) => if caller != invoice.sender@ {
                Some(RemittanceError::Unauthorized)
            } else if invoice.status == InvoiceStatus::Paid {
                Some(RemittanceError::InvalidInvoiceStatus)
            } else {
                None
            },
        }
    }

    /// Cancels the invoice `invoice_id`.
    pub fn cancel_invoice(&mut self, invoice_id: u64, caller: &Address) -> (r: Result<
        (),
        RemittanceError,
    >)
        requires
            old(self).wf(),
        ensures
            final(self).wf(),
            match old(self).cancellation_refused(invoice_id, caller@) {
                Some(e) => r == Err::<(), RemittanceError>(e) && final(self)@ == old(self)@,
                None => r == Ok::<(), RemittanceError>(()) && final(self)@ == (HubView {
                    invoices: old(self)@.invoices.insert(
                        invoice_id,
                        Invoice {
                            status: InvoiceStatus::Cancelled,
                            ..old(self)@.invoices[invoice_id]
                        },
                    ),
                    ..old(self)@
                }),
            },
    {
        let at = match self.invoices.find(&invoice_id) {
            Some(at) => at,
            None => {
                return Err(RemittanceError::InvoiceNotFound);
            },
        };
        if !caller.same_as(&self.invoices.values[at].sender) {
            return Err(RemittanceError::Unauthorized);
        }
        if self.invoices.values[at].status == InvoiceStatus::Paid {
            return Err(RemittanceError::InvalidInvoiceStatus);
        }
        self.invoices.values[at].status = InvoiceStatus::Cancelled;
        proof {
            assert(self.invoices.values@ =~= old(self).invoices.values@.update(
                at as int,
                self.invoices.values@[at as int],
            ));
            lemma_value_replaced(old(self).invoices, self.invoices, at as int);
        }
        Ok(())
    }

    /// Why the amount of the invoice `id` may not be changed to
    /// `new_amount` by `caller`, if anything forbids it.
    pub open spec fn update_refused(&self, id: u64, caller: Seq<char>, new_amount: i128) -> Option<
        RemittanceError,
    > {
        if new_amount <= 0 {
            Some(RemittanceError::InvalidAmount)
        } else {
            match stored(self@.invoices, id) {
                None => Some(RemittanceError::InvoiceNotFound),
                Some(invoice) => if caller != invoice.sender@ {
                    Some(RemittanceError::Unauthorized)
                } else if invoice.status != InvoiceStatus::Unpaid {
                    Some(RemittanceError::InvalidInvoiceStatus)
                } else {
                    None
                },
            }
        }
    }

    /// Changes the amount of the unpaid invoice `invoice_id`; fees and total
    /// follow.
    pub fn update_invoice_amount(
        &mut self,
        invoice_id: u64,
        caller: &Address,
        new_amount: i128,
    ) -> (r:
        Result<(), RemittanceError>)
        requires
            old(self).wf(),
        ensures
            final(self).wf(),
            match old(self).update_refused(invoice_id, caller@, new_amount) {
                Some(e) => r == Err::<(), RemittanceError>(e) && final(self)@ == old(self)@,
                None => r == Ok::<(), RemittanceError>(()) && final(self)@ == (HubView {
                    invoices: old(self)@.invoices.insert(
                        invoice_id,
                        Invoice {
                            amount: new_amount,
                            fees: hub_fee(new_amount),
                            total_due: total_due(new_amount),
                            ..old(self)@.invoices[invoice_id]
                        },
                    ),
                    ..old(self)@
                }),
            },
    {
        if new_amount <= 0 {
            return Err(RemittanceError::InvalidAmount);
        }
        let at = match self.invoices.find(&invoice_id) {
            Some(at) => at,
            None => {
                return Err(RemittanceError::InvoiceNotFound);
            },
        };
        if !caller.same_as(&self.invoices.values[at].sender) {
            return Err(RemittanceError::Unauthorized);
        }
        if self.invoices.values[at].status != InvoiceStatus::Unpaid {
            return Err(RemittanceError::InvalidInvoiceStatus);
        }
        let fees = charge(new_amount);
        let total = due(new_amount);
        self.invoices.values[at].amount = new_amount;
        self.invoices.values[at].fees = fees;
        self.invoices.values[at].total_due = total;
        proof {
            assert(self.invoices.values@ =~= old(self).invoices.values@.update(
                at as int,
                self.invoices.values@[at as int],
            ));
            lemma_value_replaced(old(self).invoices, self.invoices, at as int);
        }
        Ok(())
    }
}

} // verus!
