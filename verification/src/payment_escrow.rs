//! The escrow contract: its configuration, its table of escrows, and the
//! creation of escrows.
//!
//! Escrows are numbered from 1 in the order of their creation; the escrow
//! with number `n` stands at place `n - 1` of the table, and its multi-party
//! configuration, if it has one, at the same place of `approvals`.

use vstd::prelude::*;
use crate::address::{Address, Asset};
use crate::error::Error;
use crate::escrow::Escrow;
use crate::fees::{FeeBreakdown, FeeStructure};
use crate::kyc::{KycConfig, KycRecord};
use crate::multi_party::MultiPartyConfig;
use crate::registry::Registry;

verus! {

/// The state of the escrow contract.
#[derive(Clone, Debug, PartialEq, Eq)]
pub struct PaymentEscrowContract {
    pub admin: Address,
    pub escrow_counter: u64,
    pub supported_assets: Vec<Asset>,
    pub fees: FeeStructure,
    pub processing_fee_percentage: i128,
    pub reentrancy_guard: bool,
    pub fee_wallet: Option<Address>,
    pub escrows: Vec<Escrow>,
    pub approvals: Vec<Option<MultiPartyConfig>>,
    pub kyc_enabled: bool,
    pub kyc_config: Option<KycConfig>,
    pub whitelist: Registry<Address, KycRecord>,
    pub trusted_issuers: Registry<Address, bool>,
}

/// The state of the escrow contract as a value: each list as the sequence
/// of what it holds, each table as a map.
pub struct ContractView {
    pub admin: Address,
    pub escrow_counter: u64,
    pub supported_assets: Seq<Asset>,
    pub fees: FeeStructure,
    pub processing_fee_percentage: i128,
    pub reentrancy_guard: bool,
    pub fee_wallet: Option<Address>,
    pub escrows: Seq<Escrow>,
    pub approvals: Seq<Option<MultiPartyConfig>>,
    pub kyc_enabled: bool,
    pub kyc_config: Option<KycConfig>,
    pub whitelist: Map<Seq<char>, KycRecord>,
    pub trusted_issuers: Map<Seq<char>, bool>,
}

impl View for PaymentEscrowContract {
    type V = ContractView;

    open spec fn view(&self) -> ContractView {
        ContractView {
            admin: self.admin,
            escrow_counter: self.escrow_counter,
            supported_assets: self.supported_assets@,
            fees: self.fees,
            processing_fee_percentage: self.processing_fee_percentage,
            reentrancy_guard: self.reentrancy_guard,
            fee_wallet: self.fee_wallet,
            escrows: self.escrows@,
            approvals: self.approvals@,
            kyc_enabled: self.kyc_enabled,
            kyc_config: self.kyc_config,
            whitelist: self.whitelist@,
            trusted_issuers: self.trusted_issuers@,
        }
    }
}

impl ContractView {
    /// The state with `escrow` in place of the escrow `id`.
    pub open spec fn with_escrow(self, id: u64, escrow: Escrow) -> ContractView {
        ContractView { escrows: self.escrows.update(id - 1, escrow), ..self }
    }

    /// The state with `config` as the multi-party configuration of the
    /// escrow `id`.
    pub open spec fn with_approval(self, id: u64, config: MultiPartyConfig) -> ContractView {
        ContractView { approvals: self.approvals.update(id - 1, Some(config)), ..self }
    }

    /// The state with the multi-party configuration of the escrow `id`
    /// closed, where the escrow is a multi-party one and has a configuration.
    pub open spec fn closed(self, id: u64) -> ContractView {
        match self.approvals[id - 1] {
            Some(config) if self.escrows[id - 1].multi_party_enabled => self.with_approval(
                id,
                MultiPartyConfig { finalized: true, ..config },
            ),
            _ => self,
        }
    }
}

/// Whether `assets` holds an asset with the code and issuer of `asset`.
pub open spec fn lists_asset(assets: Seq<Asset>, asset: Asset) -> bool {
    exists|i: int| 0 <= i < assets.len() && #[trigger] assets[i]@ == asset@
}

impl PaymentEscrowContract {
    /// The table is numbered as the counter says, every escrow is in order,
    /// and the fee rates are valid.
    pub open spec fn wf(&self) -> bool {
        &&& self.escrows@.len() == self.escrow_counter
        &&& self.approvals@.len() == self.escrows@.len()
        &&& forall|i: int|
            0 <= i < self.escrows@.len() ==> (#[trigger] self.escrows@[i]).wf()
                && self.escrows@[i].escrow_id == i + 1
        &&& self.fees.valid()
        &&& 0 <= self.processing_fee_percentage <= 10000
        &&& self.whitelist.wf()
        &&& self.trusted_issuers.wf()
    }

    /// Whether the state is in order.
    pub fn is_well_formed(&self) -> (ok: bool)
        ensures
            ok == self.wf(),
    {
        let n = self.escrows.len();
        if n as u64 != self.escrow_counter || self.approvals.len() != n {
            return false;
        }
        if !self.fees.is_valid() || self.processing_fee_percentage < 0
            || self.processing_fee_percentage > 10000 {
            return false;
        }
        if !self.whitelist.is_well_formed() || !self.trusted_issuers.is_well_formed() {
            return false;
        }
        let mut i: usize = 0;
        while i < n
            invariant
                i <= n,
                n == self.escrows@.len(),
                n == self.approvals@.len(),
                forall|j: int|
                    0 <= j < i ==> (#[trigger] self.escrows@[j]).wf() && self.escrows@[j].escrow_id
                        == j + 1,
            decreases n - i,
        {
            if !self.escrows[i].is_well_formed() || self.escrows[i].escrow_id != i as u64 + 1 {
                return false;
            }
            i = i + 1;
        }
        true
    }

    /// Whether an escrow has the number `id`.
    pub open spec fn has(&self, id: u64) -> bool {
        1 <= id <= self.escrows@.len()
    }

    /// The escrow with the number `id`.
    pub open spec fn escrow(&self, id: u64) -> Escrow
        recommends
            self.has(id),
    {
        self.escrows@[id - 1]
    }

    /// The multi-party configuration of the escrow `id`, if it has one.
    pub open spec fn approval(&self, id: u64) -> Option<MultiPartyConfig>
        recommends
            self.has(id),
    {
        self.approvals@[id - 1]
    }

    /// Whether the escrow `id` has a multi-party configuration whose quorum
    /// is met.
    pub open spec fn quorum(&self, id: u64) -> bool
        recommends
            self.has(id),
    {
        match self.approval(id) {
            Some(config) => config.quorum(),
            None => false,
        }
    }

    /// Every escrow's running totals conserve the funds.
    pub open spec fn conserved(&self) -> bool {
        forall|i: int| 0 <= i < self.escrows@.len() ==> (#[trigger] self.escrows@[i]).conserved()
    }

    /// The place in the table of the escrow `id`, if there is such an escrow.
    pub fn slot(&self, id: u64) -> (at: Option<usize>)
        ensures
            at is Some <==> self.has(id),
            at is Some ==> at->0 == id - 1,
    {
        if id == 0 || id > self.escrows.len() as u64 {
            None
        } else {
            Some((id - 1) as usize)
        }
    }

    /// A contract under `admin`: no escrows, no supported assets, no fees,
    /// no KYC gating.
    pub fn initialize(admin: Address) -> (c: PaymentEscrowContract)
        ensures
            c.wf(),
            c.conserved(),
            c.admin == admin,
            c.escrow_counter == 0,
            c.supported_assets@.len() == 0,
            c.fees == FeeStructure::zero(),
            c.processing_fee_percentage == 0,
            !c.reentrancy_guard,
            c.fee_wallet is None,
            c.escrows@.len() == 0,
            !c.kyc_enabled,
            c.kyc_config is None,
            c.whitelist@ == Map::<Seq<char>, KycRecord>::empty(),
            c.trusted_issuers@ == Map::<Seq<char>, bool>::empty(),
    {
        PaymentEscrowContract {
            admin,
            escrow_counter: 0,
            supported_assets: Vec::new(),
            fees: FeeStructure::free(),
            processing_fee_percentage: 0,
            reentrancy_guard: false,
            fee_wallet: None,
            escrows: Vec::new(),
            approvals: Vec::new(),
            kyc_enabled: false,
            kyc_config: None,
            whitelist: Registry::new(),
            trusted_issuers: Registry::new(),
        }
    }

    /// Adds `asset` to the assets in which escrows may be opened.
    pub fn add_supported_asset(&mut self, admin: &Address, asset: Asset)
        requires
            admin@ == old(self).admin@,
        ensures
            old(self).wf() ==> final(self).wf(),
            final(self)@ == (ContractView {
                supported_assets: old(self).supported_assets@.push(asset),
                ..old(self)@
            }),
    {
        self.supported_assets.push(asset);
    }

    /// Whether escrows may be opened in `asset`.
    pub fn supports_asset(&self, asset: &Asset) -> (supported: bool)
        ensures
            supported == lists_asset(self.supported_assets@, *asset),
    {
        let mut i: usize = 0;
        while i < self.supported_assets.len()
            invariant
                i <= self.supported_assets@.len(),
                forall|j: int| 0 <= j < i ==> self.supported_assets@[j]@ != asset@,
            decreases self.supported_assets@.len() - i,
        {
            if self.supported_assets[i].same_as(asset) {
                return true;
            }
            i = i + 1;
        }
        false
    }

    /// Sets the platform fee, in basis points: `Unauthorized` unless `admin`
    /// is the administrator, `InvalidFeePercentage` outside 0..=10000.
    pub fn set_platform_fee(
        &mut self,
        admin: &Address,
        fee_percentage: i128,
    ) -> (r: Result<(), Error>)
        ensures
            old(self).wf() ==> final(self).wf(),
            r == if admin@ != old(self).admin@ {
                Err::<(), Error>(Error::Unauthorized)
            } else if fee_percentage < 0 || fee_percentage > 10000 {
                Err::<(), Error>(Error::InvalidFeePercentage)
            } else {
                Ok::<(), Error>(())
            },
            r is Err ==> final(self)@ == old(self)@,
            r is Ok ==> final(self)@ == (ContractView {
                fees: FeeStructure { platform_percentage: fee_percentage, ..old(self).fees },
                ..old(self)@
            }),
    {
        if !admin.same_as(&self.admin) {
            return Err(Error::Unauthorized);
        }
        if fee_percentage < 0 || fee_percentage > 10000 {
            return Err(Error::InvalidFeePercentage);
        }
        self.fees.platform_percentage = fee_percentage;
        Ok(())
    }

    /// The platform fee, in basis points.
    pub fn get_platform_fee(&self) -> (rate: i128)
        ensures
            rate == self.fees.platform_percentage,
    {
        self.fees.platform_percentage
    }

    /// Sets the processing fee charged on refunds, in basis points:
    /// `Unauthorized` unless `admin` is the administrator,
    /// `InvalidFeePercentage` outside 0..=10000.
    pub fn set_processing_fee(&mut self, admin: &Address, fee_percentage: i128) -> (r: Result<
        (),
        Error,
    >)
        ensures
            old(self).wf() ==> final(self).wf(),
            r == if admin@ != old(self).admin@ {
                Err::<(), Error>(Error::Unauthorized)
            } else if fee_percentage < 0 || fee_percentage > 10000 {
                Err::<(), Error>(Error::InvalidFeePercentage)
            } else {
                Ok::<(), Error>(())
            },
            r is Err ==> final(self)@ == old(self)@,
            r is Ok ==> final(self)@ == (ContractView {
                processing_fee_percentage: fee_percentage,
                ..old(self)@
            }),
    {
        if !admin.same_as(&self.admin) {
            return Err(Error::Unauthorized);
        }
        if fee_percentage < 0 || fee_percentage > 10000 {
            return Err(Error::InvalidFeePercentage);
        }
        self.processing_fee_percentage = fee_percentage;
        Ok(())
    }

    /// The processing fee charged on refunds, in basis points.
    pub fn get_processing_fee(&self) -> (rate: i128)
        ensures
            rate == self.processing_fee_percentage,
    {
        self.processing_fee_percentage
    }

    /// Names the wallet that collects fees: `Unauthorized` unless `admin` is
    /// the administrator.
    pub fn set_fee_wallet(&mut self, admin: &Address, fee_wallet: Address) -> (r: Result<(), Error>)
        ensures
            old(self).wf() ==> final(self).wf(),
            r == if admin@ != old(self).admin@ {
                Err::<(), Error>(Error::Unauthorized)
            } else {
                Ok::<(), Error>(())
            },
            r is Err ==> final(self)@ == old(self)@,
            r is Ok ==> final(self)@ == (ContractView {
                fee_wallet: Some(fee_wallet),
                ..old(self)@
            }),
    {
        if !admin.same_as(&self.admin) {
            return Err(Error::Unauthorized);
        }
        self.fee_wallet = Some(fee_wallet);
        Ok(())
    }

    /// The wallet that collects fees, if one was named.
    pub fn get_fee_wallet(&self) -> (wallet: Option<&Address>)
        ensures
            match wallet {
                Some(w) => self.fee_wallet == Some(*w),
                None => self.fee_wallet is None,
            },
    {
        self.fee_wallet.as_ref()
    }

    /// Sets the forex fee, in basis points: `Unauthorized` unless `admin` is
    /// the administrator, `InvalidRate` outside 0..=10000.
    pub fn set_forex_fee(&mut self, admin: &Address, fee_percentage: i128) -> (r: Result<(), Error>)
        ensures
            old(self).wf() ==> final(self).wf(),
            r == if admin@ != old(self).admin@ {
                Err::<(), Error>(Error::Unauthorized)
            } else if fee_percentage < 0 || fee_percentage > 10000 {
                Err::<(), Error>(Error::InvalidRate)
            } else {
                Ok::<(), Error>(())
            },
            r is Err ==> final(self)@ == old(self)@,
            r is Ok ==> final(self)@ == (ContractView {
                fees: FeeStructure { forex_percentage: fee_percentage, ..old(self).fees },
                ..old(self)@
            }),
    {
        if !admin.same_as(&self.admin) {
            return Err(Error::Unauthorized);
        }
        if fee_percentage < 0 || fee_percentage > 10000 {
            return Err(Error::InvalidRate);
        }
        self.fees.forex_percentage = fee_percentage;
        Ok(())
    }

    /// Sets the flat compliance fee: `Unauthorized` unless `admin` is the
    /// administrator, `InvalidAmount` where it is negative.
    pub fn set_compliance_fee(&mut self, admin: &Address, flat_fee: i128) -> (r: Result<(), Error>)
        ensures
            old(self).wf() ==> final(self).wf(),
            r == if admin@ != old(self).admin@ {
                Err::<(), Error>(Error::Unauthorized)
            } else if flat_fee < 0 {
                Err::<(), Error>(Error::InvalidAmount)
            } else {
                Ok::<(), Error>(())
            },
            r is Err ==> final(self)@ == old(self)@,
            r is Ok ==> final(self)@ == (ContractView {
                fees: FeeStructure { compliance_flat: flat_fee, ..old(self).fees },
                ..old(self)@
            }),
    {
        if !admin.same_as(&self.admin) {
            return Err(Error::Unauthorized);
        }
        if flat_fee < 0 {
            return Err(Error::InvalidAmount);
        }
        self.fees.compliance_flat = flat_fee;
        Ok(())
    }

    /// Sets the bounds between which the total fee is clamped:
    /// `Unauthorized` unless `admin` is the administrator, `InvalidAmount`
    /// unless `0 <= min_fee <= max_fee`.
    pub fn set_fee_limits(&mut self, admin: &Address, min_fee: i128, max_fee: i128) -> (r: Result<
        (),
        Error,
    >)
        ensures
            old(self).wf() ==> final(self).wf(),
            r == if admin@ != old(self).admin@ {
                Err::<(), Error>(Error::Unauthorized)
            } else if min_fee < 0 || max_fee < min_fee {
                Err::<(), Error>(Error::InvalidAmount)
            } else {
                Ok::<(), Error>(())
            },
            r is Err ==> final(self)@ == old(self)@,
            r is Ok ==> final(self)@ == (ContractView {
                fees: FeeStructure { min_fee, max_fee, ..old(self).fees },
                ..old(self)@
            }),
    {
        if !admin.same_as(&self.admin) {
            return Err(Error::Unauthorized);
        }
        if min_fee < 0 || max_fee < min_fee {
            return Err(Error::InvalidAmount);
        }
        self.fees.min_fee = min_fee;
        self.fees.max_fee = max_fee;
        Ok(())
    }

    /// The fees on `amount` under the contract's schedule.
    pub fn calculate_fees(&self, amount: i128) -> (r: Result<FeeBreakdown, Error>)
        ensures
            r == self.fees.fees_on(amount as int),
    {
        self.fees.compute(amount)
    }

    /// The fees on `amount` under the contract's schedule.
    pub fn get_fee_breakdown(&self, amount: i128) -> (r: Result<FeeBreakdown, Error>)
        ensures
            r == self.fees.fees_on(amount as int),
    {
        self.calculate_fees(amount)
    }

    /// The escrow with the number `escrow_id`, if there is one.
    pub fn get_escrow(&self, escrow_id: u64) -> (found: Option<&Escrow>)
        ensures
            found is Some <==> self.has(escrow_id),
            found is Some ==> *found->0 == self.escrow(escrow_id),
    {
        match self.slot(escrow_id) {
            Some(at) => Some(&self.escrows[at]),
            None => None,
        }
    }

    /// The multi-party configuration of the escrow `escrow_id`, if the
    /// escrow exists and has one.
    pub fn get_multi_party_status(&self, escrow_id: u64) -> (found: Option<&MultiPartyConfig>)
        requires
            self.wf(),
        ensures
            found is Some <==> self.has(escrow_id) && self.approval(escrow_id) is Some,
            found is Some ==> Some(*found->0) == self.approval(escrow_id),
    {
        match self.slot(escrow_id) {
            Some(at) => self.approvals[at].as_ref(),
            None => None,
        }
    }
}

} // verus!
