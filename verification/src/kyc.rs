//! Know-your-customer gating: a whitelist of verified accounts, or the
//! verdict of an oracle.

use vstd::prelude::*;
use crate::address::Address;
use crate::registry::Registry;

verus! {

#[derive(Copy, Clone, Debug, Eq, PartialEq, PartialOrd, Ord, Structural)]
pub enum KycError {
    NotConfigured,
    AccountNotVerified,
    InvalidProof,
    OracleUnavailable,
    Unauthorized,
    AlreadyVerified,
    ProofExpired,
    InvalidIssuer,
    RateLimited,
    AccountSuspended,
    AlreadyConfigured,
}

#[derive(Clone, Copy, PartialEq, Eq, Debug, Structural)]
pub enum KycStatus {
    Unknown,
    Pending,
    Verified,
    Rejected,
    Suspended,
}

#[derive(Clone, Debug, PartialEq, Eq)]
pub struct KycConfig {
    pub admin: Address,
    pub oracle_address: Address,
    pub use_oracle: bool,
    pub proof_validity_period: u64,
    pub last_check_ledger: u64,
}

/// What is known of one account. An `expiry` of 0 never lapses.
#[derive(Clone, Debug, PartialEq, Eq)]
pub struct KycRecord {
    pub account: Address,
    pub status: KycStatus,
    pub verified_at: u64,
    pub issuer: Address,
    pub expiry: u64,
}

#[derive(Clone, Copy, Debug, PartialEq, Eq, Structural)]
pub struct KycResult {
    pub sender_verified: bool,
    pub recipient_verified: bool,
    pub timestamp: u64,
}

/// The status that an oracle reports for a verified account.
pub const ORACLE_VERIFIED: u32 = 1;

/// The number of bytes in a proof signature.
pub const PROOF_LEN: usize = 64;

/// Whether `record` shows a verified account at `now`: the status is
/// `Verified` and the record has no expiry or one that lies ahead.
pub open spec fn record_verifies(record: Option<KycRecord>, now: u64) -> bool {
    match record {
        Some(r) => r.status == KycStatus::Verified && (r.expiry == 0 || r.expiry > now),
        None => false,
    }
}

/// Whether `record` shows a verified account at `now`.
pub fn is_verified(record: Option<&KycRecord>, now: u64) -> (verified: bool)
    ensures
        verified == record_verifies(
            match record {
                Some(r) => Some(*r),
                None => None,
            },
            now,
        ),
{
    match record {
        Some(r) => r.status == KycStatus::Verified && (r.expiry == 0 || r.expiry > now),
        None => false,
    }
}

/// What the whitelist says of both parties at `now`.
pub open spec fn whitelist_verdict(
    whitelist: Map<Seq<char>, KycRecord>,
    sender: Seq<char>,
    recipient: Seq<char>,
    now: u64,
) -> KycResult {
    KycResult {
        sender_verified: whitelist.contains_key(sender) && record_verifies(
            Some(whitelist[sender]),
            now,
        ),
        recipient_verified: whitelist.contains_key(recipient) && record_verifies(
            Some(whitelist[recipient]),
            now,
        ),
        timestamp: now,
    }
}

/// Judges both parties by their whitelist records.
pub fn check_via_whitelist(
    whitelist: &Registry<Address, KycRecord>,
    sender: &Address,
    recipient: &Address,
    now: u64,
) -> (r: Result<KycResult, KycError>)
    requires
        whitelist.wf(),
    ensures
        r == Ok::<KycResult, KycError>(whitelist_verdict(whitelist@, sender@, recipient@, now)),
{
    let sender_verified = is_verified(whitelist.get(sender), now);
    let recipient_verified = is_verified(whitelist.get(recipient), now);
    Ok(KycResult { sender_verified, recipient_verified, timestamp: now })
}

/// What the statuses that the oracle reported amount to. `None` stands for
/// a query that the oracle did not answer.
pub open spec fn oracle_verdict(
    sender_status: Option<u32>,
    recipient_status: Option<u32>,
    now: u64,
) -> Result<KycResult, KycError> {
    if sender_status is None || recipient_status is None {
        Err(KycError::OracleUnavailable)
    } else {
        Ok(
            KycResult {
                sender_verified: sender_status->0 == 1,
                recipient_verified: recipient_status->0 == 1,
                timestamp: now,
            },
        )
    }
}

/// Judges both parties by the statuses that the oracle reported for them.
/// `None` stands for a query that the oracle did not answer.
pub fn check_via_oracle(sender_status: Option<u32>, recipient_status: Option<u32>, now: u64) -> (r:
    Result<KycResult, KycError>)
    ensures
        r == oracle_verdict(sender_status, recipient_status, now),
{
    let sender_status = match sender_status {
        Some(status) => status,
        None => {
            return Err(KycError::OracleUnavailable);
        },
    };
    let recipient_status = match recipient_status {
        Some(status) => status,
        None => {
            return Err(KycError::OracleUnavailable);
        },
    };
    Ok(
        KycResult {
            sender_verified: sender_status == ORACLE_VERIFIED,
            recipient_verified: recipient_status == ORACLE_VERIFIED,
            timestamp: now,
        },
    )
}

/// The verdict on both parties: by the oracle's statuses where `use_oracle`
/// is set, by the whitelist where it is not.
pub open spec fn kyc_verdict(
    use_oracle: bool,
    whitelist: Map<Seq<char>, KycRecord>,
    sender: Seq<char>,
    recipient: Seq<char>,
    sender_status: Option<u32>,
    recipient_status: Option<u32>,
    now: u64,
) -> Result<KycResult, KycError> {
    if use_oracle {
        oracle_verdict(sender_status, recipient_status, now)
    } else {
        Ok(whitelist_verdict(whitelist, sender, recipient, now))
    }
}

/// Whether a verdict clears both parties.
pub open spec fn clears(verdict: Result<KycResult, KycError>) -> bool {
    verdict matches Ok(result) && result.sender_verified && result.recipient_verified
}

/// Judges both parties as the configuration says: by the oracle's statuses
/// where it names an oracle, by the whitelist where it does not.
pub fn check_kyc(
    config: &KycConfig,
    whitelist: &Registry<Address, KycRecord>,
    sender: &Address,
    recipient: &Address,
    sender_status: Option<u32>,
    recipient_status: Option<u32>,
    now: u64,
) -> (r: Result<KycResult, KycError>)
    requires
        whitelist.wf(),
    ensures
        r == kyc_verdict(
            config.use_oracle,
            whitelist@,
            sender@,
            recipient@,
            sender_status,
            recipient_status,
            now,
        ),
{
    if config.use_oracle {
        check_via_oracle(sender_status, recipient_status, now)
    } else {
        check_via_whitelist(whitelist, sender, recipient, now)
    }
}

/// Whether every byte of `signature` is zero.
pub fn all_zero(signature: &[u8; 64]) -> (zero: bool)
    ensures
        zero == forall|i: int| 0 <= i < 64 ==> signature@[i] == 0,
{
    let mut i: usize = 0;
    while i < PROOF_LEN
        invariant
            i <= 64,
            forall|j: int| 0 <= j < i ==> signature@[j] == 0,
        decreases 64 - i,
    {
        if signature[i] != 0 {
            return false;
        }
        i = i + 1;
    }
    true
}

/// Whether `issuer` is recorded as trusted.
pub open spec fn trusts(trusted_issuers: Map<Seq<char>, bool>, issuer: Seq<char>) -> bool {
    trusted_issuers.contains_key(issuer) && trusted_issuers[issuer]
}

/// What a proof of verification amounts to: `InvalidIssuer` unless the
/// issuer is trusted, `InvalidProof` where the signature is all zeros.
pub open spec fn proof_verdict(
    trusted_issuers: Map<Seq<char>, bool>,
    proof_signature: Seq<u8>,
    trusted_issuer: Seq<char>,
) -> Result<bool, KycError> {
    if !trusts(trusted_issuers, trusted_issuer) {
        Err(KycError::InvalidIssuer)
    } else if forall|i: int| 0 <= i < 64 ==> proof_signature[i] == 0 {
        Err(KycError::InvalidProof)
    } else {
        Ok(true)
    }
}

/// Checks a proof of verification: `InvalidIssuer` unless the issuer is
/// trusted, `InvalidProof` where the signature is all zeros.
pub fn verify_proof(
    trusted_issuers: &Registry<Address, bool>,
    _account: &Address,
    proof_signature: &[u8; 64],
    trusted_issuer: &Address,
    _proof_validity_period: u64,
) -> (r: Result<bool, KycError>)
    requires
        trusted_issuers.wf(),
    ensures
        r == proof_verdict(trusted_issuers@, proof_signature@, trusted_issuer@),
{
    let is_trusted = match trusted_issuers.get(trusted_issuer) {
        Some(flag) => *flag,
        None => false,
    };
    if !is_trusted {
        return Err(KycError::InvalidIssuer);
    }
    if all_zero(proof_signature) {
        return Err(KycError::InvalidProof);
    }
    Ok(true)
}

/// An oracle that answers from a table of statuses that its administrator
/// fills.
#[derive(Clone, Debug, PartialEq, Eq)]
pub struct MockKycOracleContract {
    pub admin: Address,
    pub statuses: Registry<Address, u32>,
}

impl MockKycOracleContract {
    /// The table is in order.
    pub open spec fn wf(&self) -> bool {
        self.statuses.wf()
    }

    /// Whether the table is in order.
    pub fn is_well_formed(&self) -> (ok: bool)
        ensures
            ok == self.wf(),
    {
        self.statuses.is_well_formed()
    }

    /// An oracle under `admin` with no statuses.
    pub fn initialize(admin: Address) -> (oracle: MockKycOracleContract)
        ensures
            oracle.wf(),
            oracle.admin == admin,
            oracle.statuses@ == Map::<Seq<char>, u32>::empty(),
    {
        MockKycOracleContract { admin, statuses: Registry::new() }
    }

    /// Stores `status` for `account`.
    pub fn set_status(&mut self, admin: &Address, account: Address, status: u32)
        requires
            old(self).wf(),
            admin@ == old(self).admin@,
        ensures
            final(self).wf(),
            final(self).admin == old(self).admin,
            final(self).statuses@ == old(self).statuses@.insert(account@, status),
    {
        self.statuses.set(account, status);
    }

    /// The status stored for `account`; 0 where none is.
    pub fn is_kyc(&self, account: &Address) -> (status: u32)
        requires
            self.wf(),
        ensures
            status == if self.statuses@.contains_key(account@) {
                self.statuses@[account@]
            } else {
                0
            },
    {
        match self.statuses.get(account) {
            Some(status) => *status,
            None => 0,
        }
    }
}

} // verus!
