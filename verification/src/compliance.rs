//! Opening escrows, and the KYC gate that stands before it.

use vstd::prelude::*;
use crate::address::{Address, Asset};
use crate::error::Error;
use crate::escrow::Escrow;
use crate::kyc::{
    check_kyc,
    clears,
    kyc_verdict,
    proof_verdict,
    verify_proof,
    KycConfig,
    KycRecord,
    KycStatus,
};
use crate::payment_escrow::{lists_asset, ContractView, PaymentEscrowContract};

verus! {

impl PaymentEscrowContract {
    /// Turns KYC gating on under a new configuration: `Unauthorized` unless
    /// `admin` is the administrator.
    pub fn configure_kyc(
        &mut self,
        admin: Address,
        oracle_address: Address,
        use_oracle: bool,
        proof_validity_period: u64,
    ) -> (r: Result<(), Error>)
        ensures
            old(self).wf() ==> final(self).wf(),
            admin@ != old(self).admin@
                ==> r == Err::<(), Error>(Error::Unauthorized) && final(self)@ == old(self)@,
            admin@ == old(self).admin@
                ==> r == Ok::<(), Error>(()) && final(self)@ == (ContractView {
                kyc_enabled: true,
                kyc_config: Some(
                    KycConfig {
                        admin,
                        oracle_address,
                        use_oracle,
                        proof_validity_period,
                        last_check_ledger: 0,
                    },
                ),
                ..old(self)@
            }),
    {
        if !admin.same_as(&self.admin) {
            return Err(Error::Unauthorized);
        }
        self.kyc_config = Some(
            KycConfig {
                admin,
                oracle_address,
                use_oracle,
                proof_validity_period,
                last_check_ledger: 0,
            },
        );
        self.kyc_enabled = true;
        Ok(())
    }

    /// Records `account` as verified by the administrator at `now`, until
    /// `expiry` (0: for good): `Unauthorized` unless `admin` is the
    /// administrator.
    pub fn add_to_whitelist(
        &mut self,
        admin: &Address,
        account: Address,
        expiry: u64,
        now: u64,
    ) -> (r:
        Result<(), Error>)
        requires
            old(self).wf(),
        ensures
            final(self).wf(),
            admin@ != old(self).admin@
                ==> r == Err::<(), Error>(Error::Unauthorized) && final(self)@ == old(self)@,
            admin@ == old(self).admin@
                ==> r == Ok::<(), Error>(()) && final(self)@ == (ContractView {
                whitelist: old(self).whitelist@.insert(
                    account@,
                    KycRecord {
                        account,
                        status: KycStatus::Verified,
                        verified_at: now,
                        issuer: *admin,
                        expiry,
                    },
                ),
                ..old(self)@
            }),
    {
        if !admin.same_as(&self.admin) {
            return Err(Error::Unauthorized);
        }
        let record = KycRecord {
            account: account.duplicate(),
            status: KycStatus::Verified,
            verified_at: now,
            issuer: admin.duplicate(),
            expiry,
        };
        self.whitelist.set(account, record);
        Ok(())
    }

    /// Records `account` as rejected by the administrator at `now`:
    /// `Unauthorized` unless `admin` is the administrator.
    pub fn remove_from_whitelist(
        &mut self,
        admin: &Address,
        account: Address,
        now: u64,
    ) -> (r: Result<
        (),
        Error,
    >)
        requires
            old(self).wf(),
        ensures
            final(self).wf(),
            admin@ != old(self).admin@
                ==> r == Err::<(), Error>(Error::Unauthorized) && final(self)@ == old(self)@,
            admin@ == old(self).admin@
                ==> r == Ok::<(), Error>(()) && final(self)@ == (ContractView {
                whitelist: old(self).whitelist@.insert(
                    account@,
                    KycRecord {
                        account,
                        status: KycStatus::Rejected,
                        verified_at: now,
                        issuer: *admin,
                        expiry: 0,
                    },
                ),
                ..old(self)@
            }),
    {
        if !admin.same_as(&self.admin) {
            return Err(Error::Unauthorized);
        }
        let record = KycRecord {
            account: account.duplicate(),
            status: KycStatus::Rejected,
            verified_at: now,
            issuer: admin.duplicate(),
            expiry: 0,
        };
        self.whitelist.set(account, record);
        Ok(())
    }

    /// Records `issuer` as trusted to sign proofs of verification:
    /// `Unauthorized` unless `admin` is the administrator.
    pub fn add_trusted_issuer(&mut self, admin: &Address, issuer: Address) -> (r: Result<(), Error>)
        requires
            old(self).wf(),
        ensures
            final(self).wf(),
            admin@ != old(self).admin@
                ==> r == Err::<(), Error>(Error::Unauthorized) && final(self)@ == old(self)@,
            admin@ == old(self).admin@
                ==> r == Ok::<(), Error>(()) && final(self)@ == (ContractView {
                trusted_issuers: old(self).trusted_issuers@.insert(issuer@, true),
                ..old(self)@
            }),
    {
        if !admin.same_as(&self.admin) {
            return Err(Error::Unauthorized);
        }
        self.trusted_issuers.set(issuer, true);
        Ok(())
    }

    /// The status recorded for `account`; `Unknown` where nothing is.
    pub fn get_kyc_status(&self, account: &Address) -> (status: KycStatus)
        requires
            self.wf(),
        ensures
            status == if self.whitelist@.contains_key(account@) {
                self.whitelist@[account@].status
            } else {
                KycStatus::Unknown
            },
    {
        match self.whitelist.get(account) {
            Some(record) => record.status,
            None => KycStatus::Unknown,
        }
    }

    /// Marks the escrow `escrow_id` as KYC compliant: `Unauthorized` unless
    /// `admin` is the administrator, `EscrowNotFound` where there is no such
    /// escrow.
    pub fn admin_override_kyc(&mut self, admin: &Address, escrow_id: u64) -> (r: Result<(), Error>)
        requires
            old(self).wf(),
        ensures
            final(self).wf(),
            old(self).conserved() ==> final(self).conserved(),
            r == if admin@ != old(self).admin@ {
                Err::<(), Error>(Error::Unauthorized)
            } else if !old(self).has(escrow_id) {
                Err::<(), Error>(Error::EscrowNotFound)
            } else {
                Ok::<(), Error>(())
            },
            r is Err ==> final(self)@ == old(self)@,
            r is Ok ==> final(self)@ == old(self)@.with_escrow(
                escrow_id,
                Escrow { kyc_compliant: true, ..old(self).escrow(escrow_id) },
            ),
    {
        if !admin.same_as(&self.admin) {
            return Err(Error::Unauthorized);
        }
        let at = match self.slot(escrow_id) {
            Some(at) => at,
            None => {
                return Err(Error::EscrowNotFound);
            },
        };
        self.escrows[at].kyc_compliant = true;
        proof {
            assert(final(self)@.escrows =~= old(self)@.with_escrow(
                escrow_id,
                Escrow { kyc_compliant: true, ..old(self).escrow(escrow_id) },
            ).escrows);
        }
        Ok(())
    }

    /// When a record made at `now` under a validity period lapses: never (0)
    /// where the period is 0.
    pub open spec fn proof_expiry(now: u64, proof_validity_period: u64) -> int {
        if proof_validity_period > 0 {
            now + proof_validity_period
        } else {
            0
        }
    }

    /// Checks the proof that `trusted_issuer` signed for `account` and, where
    /// it holds, records the account as verified at `now` for the configured
    /// validity period.
    ///
    /// `KycNotConfigured` unless KYC gating is on and configured;
    /// `InvalidProof` where the issuer is not trusted or the signature is
    /// all zeros.
    pub fn verify_kyc_proof(
        &mut self,
        account: Address,
        proof_signature: &[u8; 64],
        trusted_issuer: Address,
        now: u64,
    ) -> (r: Result<bool, Error>)
        requires
            old(self).wf(),
            old(self).kyc_config is Some ==> now + old(self).kyc_config->0.proof_validity_period
                <= u64::MAX,
        ensures
            final(self).wf(),
            !old(self).kyc_enabled || old(self).kyc_config is None ==> r == Err::<bool, Error>(
                Error::KycNotConfigured,
            ) && final(self)@ == old(self)@,
            old(self).kyc_enabled && old(self).kyc_config is Some ==> match proof_verdict(
                old(self).trusted_issuers@,
                proof_signature@,
                trusted_issuer@,
            ) {
                Err(_) => r == Err::<bool, Error>(Error::InvalidProof)
                    && final(self)@ == old(self)@,
                Ok(_) => r == Ok::<bool, Error>(true) && final(self)@ == (ContractView {
                    whitelist: old(self).whitelist@.insert(
                        account@,
                        KycRecord {
                            account,
                            status: KycStatus::Verified,
                            verified_at: now,
                            issuer: trusted_issuer,
                            expiry: Self::proof_expiry(
                                now,
                                old(self).kyc_config->0.proof_validity_period,
                            ) as u64,
                        },
                    ),
                    ..old(self)@
                }),
            },
    {
        if !self.kyc_enabled {
            return Err(Error::KycNotConfigured);
        }
        let proof_validity_period = match &self.kyc_config {
            Some(config) => config.proof_validity_period,
            None => {
                return Err(Error::KycNotConfigured);
            },
        };
        match verify_proof(
            &self.trusted_issuers,
            &account,
            proof_signature,
            &trusted_issuer,
            proof_validity_period,
        ) {
            Ok(valid) => {
                if valid {
                    let record = KycRecord {
                        account: account.duplicate(),
                        status: KycStatus::Verified,
                        verified_at: now,
                        issuer: trusted_issuer,
                        expiry: if proof_validity_period > 0 {
                            now + proof_validity_period
                        } else {
                            0
                        },
                    };
                    self.whitelist.set(account, record);
                }
                Ok(valid)
            },
            Err(_) => Err(Error::InvalidProof),
        }
    }

    /// Why an escrow may not be opened, if anything forbids it.
    /// `sender_status` and `recipient_status` are what the KYC oracle
    /// reported for the two parties, `None` where it did not answer; they
    /// count only where KYC gating is on and goes by the oracle.
    pub open spec fn creation_refused(
        &self,
        sender: Seq<char>,
        recipient: Seq<char>,
        amount: i128,
        asset: Asset,
        sender_status: Option<u32>,
        recipient_status: Option<u32>,
        now: u64,
    ) -> Option<Error> {
        if amount <= 0 {
            Some(Error::InvalidAmount)
        } else if sender == recipient {
            Some(Error::SameSenderRecipient)
        } else if !lists_asset(self.supported_assets@, asset) {
            Some(Error::UnsupportedAsset)
        } else if self.kyc_enabled && self.kyc_config is None {
            Some(Error::KycNotConfigured)
        } else if self.kyc_enabled && !clears(
            kyc_verdict(
                self.kyc_config->0.use_oracle,
                self.whitelist@,
                sender,
                recipient,
                sender_status,
                recipient_status,
                now,
            ),
        ) {
            Some(Error::KycFailed)
        } else if self.escrow_counter == u64::MAX {
            Some(Error::CounterOverflow)
        } else {
            None
        }
    }

    /// Opens an escrow of `amount` in `asset` from `sender` to `recipient`
    /// and returns its number, the next after the last one given.
    ///
    /// Where KYC gating is on, both parties must be verified, and the escrow
    /// is then marked KYC compliant. A refusal changes nothing.
    pub fn create_escrow(
        &mut self,
        sender: Address,
        recipient: Address,
        amount: i128,
        asset: Asset,
        expiration_timestamp: u64,
        memo: String,
        sender_status: Option<u32>,
        recipient_status: Option<u32>,
        now: u64,
    ) -> (r: Result<u64, Error>)
        requires
            old(self).wf(),
        ensures
            final(self).wf(),
            old(self).conserved() ==> final(self).conserved(),
            match old(self).creation_refused(
                sender@,
                recipient@,
                amount,
                asset,
                sender_status,
                recipient_status,
                now,
            ) {
                Some(e) => r == Err::<u64, Error>(e) && final(self)@ == old(self)@,
                None => {
                    &&& r == Ok::<u64, Error>((old(self).escrow_counter + 1) as u64)
                    &&& final(self).has(r->Ok_0)
                    &&& final(self).escrow(r->Ok_0).is_new(
                        r->Ok_0,
                        sender,
                        recipient,
                        amount,
                        asset,
                        expiration_timestamp,
                        memo,
                        old(self).kyc_enabled,
                        now,
                    )
                    &&& final(self)@ == (ContractView {
                        escrow_counter: r->Ok_0,
                        escrows: old(self).escrows@.push(final(self).escrow(r->Ok_0)),
                        approvals: old(self).approvals@.push(None),
                        ..old(self)@
                    })
                },
            },
    {
        if amount <= 0 {
            return Err(Error::InvalidAmount);
        }
        if sender.same_as(&recipient) {
            return Err(Error::SameSenderRecipient);
        }
        if !self.supports_asset(&asset) {
            return Err(Error::UnsupportedAsset);
        }
        let mut kyc_compliant = false;
        if self.kyc_enabled {
            let verdict = match &self.kyc_config {
                Some(config) => check_kyc(
                    config,
                    &self.whitelist,
                    &sender,
                    &recipient,
                    sender_status,
                    recipient_status,
                    now,
                ),
                None => {
                    return Err(Error::KycNotConfigured);
                },
            };
            match verdict {
                Ok(result) => {
                    if !result.sender_verified || !result.recipient_verified {
                        return Err(Error::KycFailed);
                    }
                    kyc_compliant = true;
                },
                Err(_) => {
                    return Err(Error::KycFailed);
                },
            }
        }
        let counter = match self.escrow_counter.checked_add(1) {
            Some(next) => next,
            None => {
                return Err(Error::CounterOverflow);
            },
        };
        let escrow = Escrow::open(
            counter,
            sender,
            recipient,
            amount,
            asset,
            expiration_timestamp,
            memo,
            kyc_compliant,
            now,
        );
        self.escrows.push(escrow);
        self.approvals.push(None);
        self.escrow_counter = counter;
        Ok(counter)
    }
}

} // verus!
