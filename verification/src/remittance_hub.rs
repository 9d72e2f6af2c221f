//! The remittance hub: remittances screened against money laundering,
//! conversion through two oracles and a cache of rates, and the state that
//! the invoices and batches rest on.

use vstd::prelude::*;
use crate::address::{Address, Asset};
use crate::aml::{AmlConfig, AmlScreeningResult};
use crate::oracle::{
    conversion_outcome,
    get_conversion_rate,
    AssetPair,
    CachedRate,
    ConversionResult,
    OracleConfig,
};
use crate::registry::{stored, Registry};
use crate::upgradeable::{
    get_version,
    is_paused,
    migrate,
    pause,
    unpause,
    upgrade,
    UpgradeError,
    UpgradeState,
};

verus! {

#[derive(Copy, Clone, Debug, Eq, PartialEq, PartialOrd, Ord, Structural)]
pub enum RemittanceError {
    InvalidAmount,
    NotFound,
    InvalidStatus,
    DueDateInPast,
    MissingEscrow,
    InvoiceNotFound,
    InvalidInvoiceStatus,
    Unauthorized,
    OracleNotConfigured,
    OracleTimeout,
    InvalidRate,
    AssetNotSupported,
    StaleRate,
    ConversionFailed,
    RateLimitExceeded,
    AlreadyInitialized,
    AmlHighRisk,
    AmlOracleError,
    AmlNotConfigured,
    AmlFlagNotFound,
    BatchTooLarge,
    DuplicateEscrowId,
    ContractPaused,
}

#[derive(Clone, Copy, PartialEq, Eq, Debug, Structural)]
pub enum InvoiceStatus {
    Unpaid,
    Paid,
    Overdue,
    Cancelled,
}

/// Where a remittance stands: waiting to be completed, held because the
/// screening flagged it, held because the screening could not be made, or
/// completed.
#[derive(Clone, Copy, PartialEq, Eq, Debug, Structural)]
pub enum RemittanceStatus {
    Pending,
    Flagged,
    Review,
    Complete,
}

/// Where an escrow of a batch stands.
#[derive(Clone, Copy, PartialEq, Eq, Debug, Structural)]
pub enum BatchStatus {
    Pending,
    Funded,
    Released,
}

#[derive(Clone, Debug, PartialEq, Eq)]
pub struct Invoice {
    pub invoice_id: u64,
    pub sender: Address,
    pub recipient: Address,
    pub amount: i128,
    pub asset: Asset,
    pub converted_amount: i128,
    pub fees: i128,
    pub total_due: i128,
    pub status: InvoiceStatus,
    pub created_at: u64,
    pub due_date: u64,
    pub paid_at: u64,
    pub description: String,
    pub escrow_id: u64,
    pub memo: String,
}

#[derive(Clone, Debug, PartialEq, Eq)]
pub struct RemittanceData {
    pub from: Address,
    pub to: Address,
    pub amount: i128,
    pub currency: String,
    pub status: RemittanceStatus,
}

#[derive(Clone, Debug, PartialEq, Eq)]
pub struct EscrowRequest {
    pub recipient: Address,
    pub amount: i128,
    pub asset: Asset,
    pub expiration_timestamp: u64,
}

#[derive(Clone, Debug, PartialEq, Eq)]
pub struct EscrowData {
    pub sender: Address,
    pub recipient: Address,
    pub amount: i128,
    pub asset: Asset,
    pub expiration_timestamp: u64,
    pub status: BatchStatus,
}

/// The state of the remittance hub.
#[derive(Clone, Debug, PartialEq, Eq)]
pub struct RemittanceHubContract {
    pub admin: Option<Address>,
    pub oracle_config: Option<OracleConfig>,
    pub cached_rates: Registry<AssetPair, CachedRate>,
    pub aml_config: Option<AmlConfig>,
    pub aml_flags: Registry<u64, AmlScreeningResult>,
    pub remittances: Registry<u64, RemittanceData>,
    pub invoice_counter: u64,
    pub invoices: Registry<u64, Invoice>,
    pub escrow_invoices: Registry<u64, u64>,
    pub escrow_counter: u64,
    pub escrows: Registry<u64, EscrowData>,
    pub upgrade: UpgradeState,
}

/// The state of the remittance hub as a value: each table as a map.
pub struct HubView {
    pub admin: Option<Address>,
    pub oracle_config: Option<OracleConfig>,
    pub cached_rates: Map<(Seq<char>, Seq<char>), CachedRate>,
    pub aml_config: Option<AmlConfig>,
    pub aml_flags: Map<u64, AmlScreeningResult>,
    pub remittances: Map<u64, RemittanceData>,
    pub invoice_counter: u64,
    pub invoices: Map<u64, Invoice>,
    pub escrow_invoices: Map<u64, u64>,
    pub escrow_counter: u64,
    pub escrows: Map<u64, EscrowData>,
    pub upgrade: UpgradeState,
}

impl View for RemittanceHubContract {
    type V = HubView;

    open spec fn view(&self) -> HubView {
        HubView {
            admin: self.admin,
            oracle_config: self.oracle_config,
            cached_rates: self.cached_rates@,
            aml_config: self.aml_config,
            aml_flags: self.aml_flags@,
            remittances: self.remittances@,
            invoice_counter: self.invoice_counter,
            invoices: self.invoices@,
            escrow_invoices: self.escrow_invoices@,
            escrow_counter: self.escrow_counter,
            escrows: self.escrows@,
            upgrade: self.upgrade,
        }
    }
}

/// The rate at which the hub charges fees, in basis points.
pub const HUB_FEE_RATE: i128 = 250;

/// How often, in ledgers, an oracle is asked at most.
pub const RATE_LIMIT_INTERVAL: u64 = 5;

/// What is cached of a conversion that succeeded: its rate, under the two
/// assets, with its timestamp.
pub open spec fn cache_entry(
    conversion: ConversionResult,
    from_asset: String,
    to_asset: String,
) -> CachedRate {
    CachedRate {
        rate: conversion.rate,
        denominator: conversion.denominator,
        timestamp: conversion.timestamp,
        from_asset,
        to_asset,
    }
}

/// What a conversion through two oracles and the cache gives.
///
/// The primary oracle's quote is tried first, then the secondary oracle's,
/// then the cached rate under the lenient limit; the first of them that
/// gives a conversion decides. Where none does, the conversion fails with
/// `ConversionFailed`.
pub open spec fn resolution(
    config: OracleConfig,
    cached: Option<CachedRate>,
    amount: i128,
    from_asset: String,
    to_asset: String,
    primary_reply: Option<CachedRate>,
    secondary_reply: Option<CachedRate>,
    now: u64,
) -> Result<ConversionResult, RemittanceError> {
    let primary = conversion_outcome(
        primary_reply,
        from_asset,
        to_asset,
        amount,
        config.max_staleness,
        None,
        now,
    );
    let secondary = conversion_outcome(
        secondary_reply,
        from_asset,
        to_asset,
        amount,
        config.max_staleness,
        None,
        now,
    );
    let fallback = conversion_outcome(
        None,
        from_asset,
        to_asset,
        amount,
        config.max_staleness,
        cached,
        now,
    );
    if primary is Ok {
        Ok(primary->Ok_0)
    } else if secondary is Ok {
        Ok(secondary->Ok_0)
    } else if fallback is Ok {
        Ok(fallback->Ok_0)
    } else {
        Err(RemittanceError::ConversionFailed)
    }
}

/// Whether a conversion between two different assets is by a quote that one
/// of the oracles gave, and not by the cached rate.
pub open spec fn quoted(
    config: OracleConfig,
    amount: i128,
    from_asset: String,
    to_asset: String,
    primary_reply: Option<CachedRate>,
    secondary_reply: Option<CachedRate>,
    now: u64,
) -> bool {
    let primary = conversion_outcome(
        primary_reply,
        from_asset,
        to_asset,
        amount,
        config.max_staleness,
        None,
        now,
    );
    let secondary = conversion_outcome(
        secondary_reply,
        from_asset,
        to_asset,
        amount,
        config.max_staleness,
        None,
        now,
    );
    from_asset@ != to_asset@ && (primary is Ok || secondary is Ok)
}

impl HubView {
    /// The state after a conversion with the result `r`: the rate of a
    /// conversion by an oracle's quote is cached under the two assets; any
    /// other conversion, and a failure, leaves the state as it was.
    pub open spec fn after_conversion(
        self,
        r: Result<ConversionResult, RemittanceError>,
        by_quote: bool,
        from_asset: String,
        to_asset: String,
    ) -> HubView {
        if r is Ok && by_quote {
            HubView {
                cached_rates: self.cached_rates.insert(
                    (from_asset@, to_asset@),
                    cache_entry(r->Ok_0, from_asset, to_asset),
                ),
                ..self
            }
        } else {
            self
        }
    }
}

impl RemittanceHubContract {
    /// Every table is in order.
    pub open spec fn wf(&self) -> bool {
        &&& self.cached_rates.wf()
        &&& self.aml_flags.wf()
        &&& self.remittances.wf()
        &&& self.invoices.wf()
        &&& self.escrow_invoices.wf()
        &&& self.escrows.wf()
    }

    /// Whether every table is in order.
    pub fn is_well_formed(&self) -> (ok: bool)
        ensures
            ok == self.wf(),
    {
        self.cached_rates.is_well_formed() && self.aml_flags.is_well_formed()
            && self.remittances.is_well_formed() && self.invoices.is_well_formed()
            && self.escrow_invoices.is_well_formed() && self.escrows.is_well_formed()
    }

    /// Whether `caller` is the administrator.
    pub open spec fn administered_by(&self, caller: Seq<char>) -> bool {
        self.admin matches Some(admin) && admin@ == caller
    }

    /// A hub of which nothing is stored yet.
    pub fn new() -> (hub: RemittanceHubContract)
        ensures
            hub.wf(),
            hub@ == (HubView {
                admin: None,
                oracle_config: None,
                cached_rates: Map::empty(),
                aml_config: None,
                aml_flags: Map::empty(),
                remittances: Map::empty(),
                invoice_counter: 0,
                invoices: Map::empty(),
                escrow_invoices: Map::empty(),
                escrow_counter: 0,
                escrows: Map::empty(),
                upgrade: UpgradeState { version: None, paused: None },
            }),
    {
        RemittanceHubContract {
            admin: None,
            oracle_config: None,
            cached_rates: Registry::new(),
            aml_config: None,
            aml_flags: Registry::new(),
            remittances: Registry::new(),
            invoice_counter: 0,
            invoices: Registry::new(),
            escrow_invoices: Registry::new(),
            escrow_counter: 0,
            escrows: Registry::new(),
            upgrade: UpgradeState::new(),
        }
    }

    /// Puts the hub under `admin` and names its two oracles:
    /// `AlreadyInitialized` where it has an administrator.
    pub fn init_hub(
        &mut self,
        admin: Address,
        primary_oracle: Address,
        secondary_oracle: Address,
        max_staleness: u64,
    ) -> (r: Result<(), RemittanceError>)
        ensures
            old(self).wf() ==> final(self).wf(),
            old(self).admin is Some ==> r == Err::<(), RemittanceError>(
                RemittanceError::AlreadyInitialized,
            ) && final(self)@ == old(self)@,
            old(self).admin is None
                ==> r == Ok::<(), RemittanceError>(()) && final(self)@ == (HubView {
                admin: Some(admin),
                oracle_config: Some(
                    OracleConfig {
                        primary_oracle,
                        secondary_oracle,
                        admin,
                        max_staleness,
                        rate_limit_interval: 5,
                        last_query_ledger: 0,
                    },
                ),
                ..old(self)@
            }),
    {
        if self.admin.is_some() {
            return Err(RemittanceError::AlreadyInitialized);
        }
        self.oracle_config = Some(
            OracleConfig {
                primary_oracle,
                secondary_oracle,
                admin: admin.duplicate(),
                max_staleness,
                rate_limit_interval: RATE_LIMIT_INTERVAL,
                last_query_ledger: 0,
            },
        );
        self.admin = Some(admin);
        Ok(())
    }

    /// Why `caller` may not change the oracle configuration, if anything
    /// forbids it.
    pub open spec fn oracle_change_refused(&self, caller: Seq<char>) -> Option<RemittanceError> {
        if self.admin is None {
            Some(RemittanceError::OracleNotConfigured)
        } else if !self.administered_by(caller) {
            Some(RemittanceError::Unauthorized)
        } else {
            None
        }
    }

    /// Checks that `caller` may change the oracle configuration.
    fn check_oracle_admin(&self, caller: &Address) -> (r: Result<(), RemittanceError>)
        ensures
            match self.oracle_change_refused(caller@) {
                Some(e) => r == Err::<(), RemittanceError>(e),
                None => r == Ok::<(), RemittanceError>(()),
            },
    {
        match &self.admin {
            None => Err(RemittanceError::OracleNotConfigured),
            Some(admin) => {
                if !caller.same_as(admin) {
                    Err(RemittanceError::Unauthorized)
                } else {
                    Ok(())
                }
            },
        }
    }

    /// Names other oracles.
    pub fn set_oracle(
        &mut self,
        caller: &Address,
        primary_oracle: Address,
        secondary_oracle: Address,
    ) -> (r:
        Result<(), RemittanceError>)
        ensures
            old(self).wf() ==> final(self).wf(),
            match old(self).oracle_change_refused(caller@) {
                Some(e) => r == Err::<(), RemittanceError>(e) && final(self)@ == old(self)@,
                None => match old(self).oracle_config {
                    None => r == Err::<(), RemittanceError>(RemittanceError::OracleNotConfigured)
                        && final(self)@ == old(self)@,
                    Some(config) => r == Ok::<(), RemittanceError>(()) && final(self)@ == (HubView {
                        oracle_config: Some(
                            OracleConfig { primary_oracle, secondary_oracle, ..config },
                        ),
                        ..old(self)@
                    }),
                },
            },
    {
        match self.check_oracle_admin(caller) {
            Ok(_) => {},
            Err(e) => {
                return Err(e);
            },
        }
        match &mut self.oracle_config {
            None => Err(RemittanceError::OracleNotConfigured),
            Some(config) => {
                config.primary_oracle = primary_oracle;
                config.secondary_oracle = secondary_oracle;
                Ok(())
            },
        }
    }

    /// Sets the age beyond which a quoted rate is stale.
    pub fn set_max_staleness(&mut self, caller: &Address, max_staleness: u64) -> (r: Result<
        (),
        RemittanceError,
    >)
        ensures
            old(self).wf() ==> final(self).wf(),
            match old(self).oracle_change_refused(caller@) {
                Some(e) => r == Err::<(), RemittanceError>(e) && final(self)@ == old(self)@,
                None => match old(self).oracle_config {
                    None => r == Err::<(), RemittanceError>(RemittanceError::OracleNotConfigured)
                        && final(self)@ == old(self)@,
                    Some(config) => r == Ok::<(), RemittanceError>(()) && final(self)@ == (HubView {
                        oracle_config: Some(OracleConfig { max_staleness, ..config }),
                        ..old(self)@
                    }),
                },
            },
    {
        match self.check_oracle_admin(caller) {
            Ok(_) => {},
            Err(e) => {
                return Err(e);
            },
        }
        match &mut self.oracle_config {
            None => Err(RemittanceError::OracleNotConfigured),
            Some(config) => {
                config.max_staleness = max_staleness;
                Ok(())
            },
        }
    }

    /// Caches the rate `rate / denominator` from `from_asset` to `to_asset`
    /// as quoted at `now`: `InvalidRate` unless both are positive.
    pub fn set_cached_rate(
        &mut self,
        caller: &Address,
        from_asset: String,
        to_asset: String,
        rate: i128,
        denominator: i128,
        now: u64,
    ) -> (r: Result<(), RemittanceError>)
        requires
            old(self).wf(),
        ensures
            final(self).wf(),
            match old(self).oracle_change_refused(caller@) {
                Some(e) => r == Err::<(), RemittanceError>(e) && final(self)@ == old(self)@,
                None => if rate <= 0 || denominator <= 0 {
                    r == Err::<(), RemittanceError>(RemittanceError::InvalidRate) && final(self)@
                        == old(self)@
                } else {
                    r == Ok::<(), RemittanceError>(()) && final(self)@ == (HubView {
                        cached_rates: old(self)@.cached_rates.insert(
                            (from_asset@, to_asset@),
                            CachedRate { rate, denominator, timestamp: now, from_asset, to_asset },
                        ),
                        ..old(self)@
                    })
                },
            },
    {
        match self.check_oracle_admin(caller) {
            Ok(_) => {},
            Err(e) => {
                return Err(e);
            },
        }
        if rate <= 0 || denominator <= 0 {
            return Err(RemittanceError::InvalidRate);
        }
        let pair = AssetPair::of(&from_asset, &to_asset);
        self.cached_rates.set(
            pair,
            CachedRate { rate, denominator, timestamp: now, from_asset, to_asset },
        );
        Ok(())
    }

    /// The oracle configuration, if the hub has one.
    pub fn get_oracle_config(&self) -> (config: Option<&OracleConfig>)
        ensures
            match config {
                Some(c) => self.oracle_config == Some(*c),
                None => self.oracle_config is None,
            },
    {
        self.oracle_config.as_ref()
    }

    /// Turns screening on against `oracle_address` with `risk_threshold`:
    /// `Unauthorized` unless `caller` is the administrator.
    pub fn configure_aml(
        &mut self,
        caller: Address,
        oracle_address: Address,
        risk_threshold: u32,
    ) -> (r:
        Result<(), RemittanceError>)
        ensures
            old(self).wf() ==> final(self).wf(),
            !old(self).administered_by(caller@) ==> r == Err::<(), RemittanceError>(
                RemittanceError::Unauthorized,
            ) && final(self)@ == old(self)@,
            old(self).administered_by(caller@) ==> r == Ok::<(), RemittanceError>(())
                && final(self)@ == (HubView {
                    aml_config: Some(
                        AmlConfig { admin: caller, oracle_address, risk_threshold, enabled: true },
                    ),
                    ..old(self)@
                }),
    {
        if !self.is_admin(&caller) {
            return Err(RemittanceError::Unauthorized);
        }
        self.aml_config = Some(
            AmlConfig { admin: caller, oracle_address, risk_threshold, enabled: true },
        );
        Ok(())
    }

    /// Whether `caller` is the administrator.
    pub fn is_admin(&self, caller: &Address) -> (b: bool)
        ensures
            b == self.administered_by(caller@),
    {
        match &self.admin {
            Some(admin) => caller.same_as(admin),
            None => false,
        }
    }

    /// Sets the score above which a remittance is flagged: `Unauthorized`
    /// unless `caller` is the administrator, `AmlNotConfigured` where
    /// screening was never configured.
    pub fn set_aml_threshold(&mut self, caller: &Address, risk_threshold: u32) -> (r: Result<
        (),
        RemittanceError,
    >)
        ensures
            old(self).wf() ==> final(self).wf(),
            !old(self).administered_by(caller@) ==> r == Err::<(), RemittanceError>(
                RemittanceError::Unauthorized,
            ) && final(self)@ == old(self)@,
            old(self).administered_by(caller@) ==> match old(self).aml_config {
                None => r == Err::<(), RemittanceError>(RemittanceError::AmlNotConfigured)
                    && final(self)@ == old(self)@,
                Some(config) => r == Ok::<(), RemittanceError>(()) && final(self)@ == (HubView {
                    aml_config: Some(AmlConfig { risk_threshold, ..config }),
                    ..old(self)@
                }),
            },
    {
        if !self.is_admin(caller) {
            return Err(RemittanceError::Unauthorized);
        }
        match &mut self.aml_config {
            None => Err(RemittanceError::AmlNotConfigured),
            Some(config) => {
                config.risk_threshold = risk_threshold;
                Ok(())
            },
        }
    }

    /// Names another screening oracle: `Unauthorized` unless `caller` is the
    /// administrator, `AmlNotConfigured` where screening was never
    /// configured.
    pub fn set_aml_oracle(&mut self, caller: &Address, oracle_address: Address) -> (r: Result<
        (),
        RemittanceError,
    >)
        ensures
            old(self).wf() ==> final(self).wf(),
            !old(self).administered_by(caller@) ==> r == Err::<(), RemittanceError>(
                RemittanceError::Unauthorized,
            ) && final(self)@ == old(self)@,
            old(self).administered_by(caller@) ==> match old(self).aml_config {
                None => r == Err::<(), RemittanceError>(RemittanceError::AmlNotConfigured)
                    && final(self)@ == old(self)@,
                Some(config) => r == Ok::<(), RemittanceError>(()) && final(self)@ == (HubView {
                    aml_config: Some(AmlConfig { oracle_address, ..config }),
                    ..old(self)@
                }),
            },
    {
        if !self.is_admin(caller) {
            return Err(RemittanceError::Unauthorized);
        }
        match &mut self.aml_config {
            None => Err(RemittanceError::AmlNotConfigured),
            Some(config) => {
                config.oracle_address = oracle_address;
                Ok(())
            },
        }
    }

    /// The screening configuration, if the hub has one.
    pub fn get_aml_config(&self) -> (config: Option<&AmlConfig>)
        ensures
            match config {
                Some(c) => self.aml_config == Some(*c),
                None => self.aml_config is None,
            },
    {
        self.aml_config.as_ref()
    }

    /// What was flagged of the remittance `remittance_id`, if anything.
    pub fn get_aml_flag(&self, remittance_id: u64) -> (flag: Option<&AmlScreeningResult>)
        requires
            self.wf(),
        ensures
            match flag {
                Some(f) => stored(self@.aml_flags, remittance_id) == Some(*f),
                None => stored(self@.aml_flags, remittance_id) is None,
            },
    {
        self.aml_flags.get(&remittance_id)
    }

    /// The remittance `remittance_id`, if there is one.
    pub fn get_remittance(&self, remittance_id: u64) -> (found: Option<&RemittanceData>)
        requires
            self.wf(),
        ensures
            match found {
                Some(d) => stored(self@.remittances, remittance_id) == Some(*d),
                None => stored(self@.remittances, remittance_id) is None,
            },
    {
        self.remittances.get(&remittance_id)
    }

    /// Converts `amount` of `from_asset` into `to_asset`, and caches the rate
    /// where an oracle's quote gave the conversion. A conversion between
    /// equal assets or by the cached rate, and a failure, change nothing.
    ///
    /// `primary_reply` and `secondary_reply` are the quotes of the two
    /// oracles, `None` where an oracle did not answer. `InvalidAmount`
    /// unless the amount is positive, `OracleNotConfigured` where the hub
    /// has no oracle configuration.
    pub fn convert_currency(
        &mut self,
        amount: i128,
        from_asset: String,
        to_asset: String,
        primary_reply: Option<CachedRate>,
        secondary_reply: Option<CachedRate>,
        now: u64,
    ) -> (r: Result<ConversionResult, RemittanceError>)
        requires
            old(self).wf(),
        ensures
            final(self).wf(),
            r == if amount <= 0 {
                Err::<ConversionResult, RemittanceError>(RemittanceError::InvalidAmount)
            } else if old(self).oracle_config is None {
                Err::<ConversionResult, RemittanceError>(RemittanceError::OracleNotConfigured)
            } else {
                resolution(
                    old(self).oracle_config->0,
                    stored(old(self)@.cached_rates, (from_asset@, to_asset@)),
                    amount,
                    from_asset,
                    to_asset,
                    primary_reply,
                    secondary_reply,
                    now,
                )
            },
            final(self)@ == old(self)@.after_conversion(
                r,
                old(self).oracle_config is Some && quoted(
                    old(self).oracle_config->0,
                    amount,
                    from_asset,
                    to_asset,
                    primary_reply,
                    secondary_reply,
                    now,
                ),
                from_asset,
                to_asset,
            ),
    {
        if amount <= 0 {
            return Err(RemittanceError::InvalidAmount);
        }
        let max_staleness = match &self.oracle_config {
            Some(config) => config.max_staleness,
            None => {
                return Err(RemittanceError::OracleNotConfigured);
            },
        };
        let pair = AssetPair::of(&from_asset, &to_asset);
        let same_asset = from_asset == to_asset;
        let primary = get_conversion_rate(
            primary_reply,
            &from_asset,
            &to_asset,
            amount,
            max_staleness,
            None,
            now,
        );
        let (conversion, by_quote) = match primary {
            Ok(conversion) => (conversion, !same_asset),
            Err(_) => {
                let secondary = get_conversion_rate(
                    secondary_reply,
                    &from_asset,
                    &to_asset,
                    amount,
                    max_staleness,
                    None,
                    now,
                );
                match secondary {
                    Ok(conversion) => (conversion, !same_asset),
                    Err(_) => {
                        let cached = match self.cached_rates.get(&pair) {
                            Some(cache) => Some(cache.duplicate()),
                            None => None,
                        };
                        let fallback = get_conversion_rate(
                            None,
                            &from_asset,
                            &to_asset,
                            amount,
                            max_staleness,
                            cached,
                            now,
                        );
                        match fallback {
                            Ok(conversion) => (conversion, false),
                            Err(_) => {
                                return Err(RemittanceError::ConversionFailed);
                            },
                        }
                    },
                }
            },
        };
        if by_quote {
            let new_cache = CachedRate {
                rate: conversion.rate,
                denominator: conversion.denominator,
                timestamp: conversion.timestamp,
                from_asset,
                to_asset,
            };
            self.cached_rates.set(pair, new_cache);
        }
        Ok(conversion)
    }

    /// Converts `amount` of `from_asset` into `to_asset`, as
    /// `convert_currency` does.
    pub fn get_conversion_rate(
        &mut self,
        from_asset: String,
        to_asset: String,
        amount: i128,
        primary_reply: Option<CachedRate>,
        secondary_reply: Option<CachedRate>,
        now: u64,
    ) -> (r: Result<ConversionResult, RemittanceError>)
        requires
            old(self).wf(),
        ensures
            final(self).wf(),
            r == if amount <= 0 {
                Err::<ConversionResult, RemittanceError>(RemittanceError::InvalidAmount)
            } else if old(self).oracle_config is None {
                Err::<ConversionResult, RemittanceError>(RemittanceError::OracleNotConfigured)
            } else {
                resolution(
                    old(self).oracle_config->0,
                    stored(old(self)@.cached_rates, (from_asset@, to_asset@)),
                    amount,
                    from_asset,
                    to_asset,
                    primary_reply,
                    secondary_reply,
                    now,
                )
            },
            final(self)@ == old(self)@.after_conversion(
                r,
                old(self).oracle_config is Some && quoted(
                    old(self).oracle_config->0,
                    amount,
                    from_asset,
                    to_asset,
                    primary_reply,
                    secondary_reply,
                    now,
                ),
                from_asset,
                to_asset,
            ),
    {
        self.convert_currency(amount, from_asset, to_asset, primary_reply, secondary_reply, now)
    }

    /// The version of the hub.
    pub fn version(&self) -> (version: u32)
        ensures
            version == self.upgrade.current_version(),
    {
        get_version(&self.upgrade)
    }

    /// Whether the hub is paused.
    pub fn is_paused(&self) -> (paused: bool)
        ensures
            paused == self.upgrade.paused(),
    {
        is_paused(&self.upgrade)
    }

    /// Pauses the hub: `Unauthorized` unless `admin` is the administrator,
    /// `AlreadyPaused` where it is paused.
    pub fn pause(&mut self, admin: &Address) -> (r: Result<(), UpgradeError>)
        requires
            old(self).admin is Some,
        ensures
            old(self).wf() ==> final(self).wf(),
            r == if !old(self).administered_by(admin@) {
                Err::<(), UpgradeError>(UpgradeError::Unauthorized)
            } else if old(self).upgrade.paused() {
                Err::<(), UpgradeError>(UpgradeError::AlreadyPaused)
            } else {
                Ok::<(), UpgradeError>(())
            },
            r is Err ==> final(self)@ == old(self)@,
            r is Ok ==> final(self)@ == (HubView {
                upgrade: UpgradeState { paused: Some(true), ..old(self).upgrade },
                ..old(self)@
            }),
    {
        if !self.is_admin(admin) {
            return Err(UpgradeError::Unauthorized);
        }
        pause(&mut self.upgrade)
    }

    /// Lifts the pause: `Unauthorized` unless `admin` is the administrator,
    /// `NotPaused` where the hub is not paused.
    pub fn unpause(&mut self, admin: &Address) -> (r: Result<(), UpgradeError>)
        requires
            old(self).admin is Some,
        ensures
            old(self).wf() ==> final(self).wf(),
            r == if !old(self).administered_by(admin@) {
                Err::<(), UpgradeError>(UpgradeError::Unauthorized)
            } else if !old(self).upgrade.paused() {
                Err::<(), UpgradeError>(UpgradeError::NotPaused)
            } else {
                Ok::<(), UpgradeError>(())
            },
            r is Err ==> final(self)@ == old(self)@,
            r is Ok ==> final(self)@ == (HubView {
                upgrade: UpgradeState { paused: Some(false), ..old(self).upgrade },
                ..old(self)@
            }),
    {
        if !self.is_admin(admin) {
            return Err(UpgradeError::Unauthorized);
        }
        unpause(&mut self.upgrade)
    }

    /// Records an upgrade of the hub's code: the hub is paused and its
    /// version goes up by one. `Unauthorized` unless `admin` is the
    /// administrator.
    pub fn upgrade(&mut self, admin: &Address) -> (r: Result<(), UpgradeError>)
        requires
            old(self).admin is Some,
            old(self).upgrade.current_version() < u32::MAX,
        ensures
            old(self).wf() ==> final(self).wf(),
            !old(self).administered_by(admin@) ==> r == Err::<(), UpgradeError>(
                UpgradeError::Unauthorized,
            ) && final(self)@ == old(self)@,
            old(self).administered_by(admin@) ==> r == Ok::<(), UpgradeError>(()) && final(self)@
                == (HubView {
                upgrade: UpgradeState {
                    version: Some((old(self).upgrade.current_version() + 1) as u32),
                    paused: Some(true),
                },
                ..old(self)@
            }),
    {
        if !self.is_admin(admin) {
            return Err(UpgradeError::Unauthorized);
        }
        upgrade(&mut self.upgrade)
    }

    /// Completes a migration: lifts the pause and returns the version.
    /// `Unauthorized` unless `admin` is the administrator.
    pub fn migrate(&mut self, admin: &Address) -> (r: Result<u32, UpgradeError>)
        requires
            old(self).admin is Some,
        ensures
            old(self).wf() ==> final(self).wf(),
            !old(self).administered_by(admin@) ==> r == Err::<u32, UpgradeError>(
                UpgradeError::Unauthorized,
            ) && final(self)@ == old(self)@,
            old(self).administered_by(admin@) ==> r == Ok::<u32, UpgradeError>(
                old(self).upgrade.current_version(),
            ) && final(self)@ == (HubView {
                upgrade: UpgradeState { paused: Some(false), ..old(self).upgrade },
                ..old(self)@
            }),
    {
        if !self.is_admin(admin) {
            return Err(UpgradeError::Unauthorized);
        }
        migrate(&mut self.upgrade)
    }
}

} // verus!
