//! Anti-money-laundering screening: a risk score from an oracle, held
//! against a threshold.

use vstd::prelude::*;
use crate::address::Address;
use crate::registry::Registry;

verus! {

#[derive(Copy, Clone, Debug, Eq, PartialEq, PartialOrd, Ord, Structural)]
pub enum AmlError {
    NotConfigured,
    OracleUnavailable,
    HighRisk,
    Unauthorized,
    InvalidThreshold,
    FlagNotFound,
}

#[derive(Clone, Copy, PartialEq, Eq, Debug, Structural)]
pub enum AmlStatus {
    Clear,
    Flagged,
    Reviewing,
    Cleared,
}

#[derive(Clone, Debug, PartialEq, Eq)]
pub struct AmlConfig {
    pub admin: Address,
    pub oracle_address: Address,
    pub risk_threshold: u32,
    pub enabled: bool,
}

#[derive(Clone, Debug, PartialEq, Eq)]
pub struct AmlScreeningResult {
    pub sender: Address,
    pub recipient: Address,
    pub amount: i128,
    pub risk_score: u32,
    pub status: AmlStatus,
    pub timestamp: u64,
}

/// What an oracle's reply amounts to: the score, or `OracleUnavailable`
/// where the oracle did not answer.
pub fn query_aml_oracle(reply: Option<u32>) -> (r: Result<u32, AmlError>)
    ensures
        r == match reply {
            Some(score) => Ok::<u32, AmlError>(score),
            None => Err::<u32, AmlError>(AmlError::OracleUnavailable),
        },
{
    match reply {
        Some(score) => Ok(score),
        None => Err(AmlError::OracleUnavailable),
    }
}

/// The status of a transaction with `risk_score` under `risk_threshold`:
/// flagged where the score is above the threshold.
pub open spec fn status_of(risk_score: u32, risk_threshold: u32) -> AmlStatus {
    if risk_score > risk_threshold {
        AmlStatus::Flagged
    } else {
        AmlStatus::Clear
    }
}

/// What the screening of a transaction gives. `reply` is the score that the
/// oracle reported, `None` where it did not answer; it counts only where
/// screening is enabled.
pub open spec fn screening_outcome(
    config: AmlConfig,
    sender: Address,
    recipient: Address,
    amount: i128,
    reply: Option<u32>,
    now: u64,
) -> Result<AmlScreeningResult, AmlError> {
    if !config.enabled {
        Ok(
            AmlScreeningResult {
                sender,
                recipient,
                amount,
                risk_score: 0,
                status: AmlStatus::Clear,
                timestamp: now,
            },
        )
    } else {
        match reply {
            None => Err(AmlError::OracleUnavailable),
            Some(risk_score) => Ok(
                AmlScreeningResult {
                    sender,
                    recipient,
                    amount,
                    risk_score,
                    status: status_of(risk_score, config.risk_threshold),
                    timestamp: now,
                },
            ),
        }
    }
}

/// Screens a transaction of `amount` from `sender` to `recipient`.
pub fn screen_transaction(
    config: &AmlConfig,
    sender: &Address,
    recipient: &Address,
    amount: i128,
    reply: Option<u32>,
    now: u64,
) -> (r: Result<AmlScreeningResult, AmlError>)
    ensures
        r == screening_outcome(*config, *sender, *recipient, amount, reply, now),
{
    if !config.enabled {
        return Ok(
            AmlScreeningResult {
                sender: sender.duplicate(),
                recipient: recipient.duplicate(),
                amount,
                risk_score: 0,
                status: AmlStatus::Clear,
                timestamp: now,
            },
        );
    }
    let risk_score = match query_aml_oracle(reply) {
        Ok(score) => score,
        Err(e) => {
            return Err(e);
        },
    };
    let status = if risk_score > config.risk_threshold {
        AmlStatus::Flagged
    } else {
        AmlStatus::Clear
    };
    Ok(
        AmlScreeningResult {
            sender: sender.duplicate(),
            recipient: recipient.duplicate(),
            amount,
            risk_score,
            status,
            timestamp: now,
        },
    )
}

/// An oracle that answers from a table of risk scores that its
/// administrator fills.
#[derive(Clone, Debug, PartialEq, Eq)]
pub struct MockAmlOracleContract {
    pub admin: Address,
    pub scores: Registry<Address, u32>,
}

/// The score stored for `who`; 0 where none is.
pub open spec fn score_of(scores: Map<Seq<char>, u32>, who: Seq<char>) -> u32 {
    if scores.contains_key(who) {
        scores[who]
    } else {
        0
    }
}

impl MockAmlOracleContract {
    /// The table is in order.
    pub open spec fn wf(&self) -> bool {
        self.scores.wf()
    }

    /// Whether the table is in order.
    pub fn is_well_formed(&self) -> (ok: bool)
        ensures
            ok == self.wf(),
    {
        self.scores.is_well_formed()
    }

    /// An oracle under `admin` with no scores.
    pub fn initialize(admin: Address) -> (oracle: MockAmlOracleContract)
        ensures
            oracle.wf(),
            oracle.admin == admin,
            oracle.scores@ == Map::<Seq<char>, u32>::empty(),
    {
        MockAmlOracleContract { admin, scores: Registry::new() }
    }

    /// Stores `score` for `account`.
    pub fn set_risk_score(&mut self, admin: &Address, account: Address, score: u32)
        requires
            old(self).wf(),
            admin@ == old(self).admin@,
        ensures
            final(self).wf(),
            final(self).admin == old(self).admin,
            final(self).scores@ == old(self).scores@.insert(account@, score),
    {
        self.scores.set(account, score);
    }

    /// The risk of a transaction: the higher of the two parties' scores.
    pub fn screen(&self, sender: &Address, recipient: &Address, _amount: i128) -> (score: u32)
        requires
            self.wf(),
        ensures
            score == if score_of(self.scores@, sender@) > score_of(self.scores@, recipient@) {
                score_of(self.scores@, sender@)
            } else {
                score_of(self.scores@, recipient@)
            },
    {
        let sender_score = match self.scores.get(sender) {
            Some(score) => *score,
            None => 0,
        };
        let recipient_score = match self.scores.get(recipient) {
            Some(score) => *score,
            None => 0,
        };
        if sender_score > recipient_score {
            sender_score
        } else {
            recipient_score
        }
    }
}

} // verus!
