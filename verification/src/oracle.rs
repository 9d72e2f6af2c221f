//! Currency conversion from quoted exchange rates: a fresh quote from an
//! oracle where there is one, a cached quote where there is not.

use vstd::prelude::*;
use crate::address::Address;
use crate::math::trunc_div;
use crate::registry::{Key, Registry};

verus! {

/// Why a conversion or a rate query was refused.
#[derive(Copy, Clone, Debug, Eq, PartialEq, PartialOrd, Ord, Structural)]
pub enum OracleError {
    OracleNotConfigured,
    OracleTimeout,
    InvalidRate,
    AssetNotSupported,
    StaleRate,
    Unauthorized,
    RateLimitExceeded,
    ConversionOverflow,
    InvalidAmount,
    FallbackFailed,
    SameAsset,
}

#[derive(Clone, Debug, PartialEq, Eq)]
pub struct OracleConfig {
    pub primary_oracle: Address,
    pub secondary_oracle: Address,
    pub admin: Address,
    pub max_staleness: u64,
    pub rate_limit_interval: u64,
    pub last_query_ledger: u64,
}

#[derive(Clone, Debug, PartialEq, Eq)]
pub struct ConversionResult {
    pub converted_amount: i128,
    pub rate: i128,
    pub denominator: i128,
    pub from_asset: String,
    pub to_asset: String,
    pub timestamp: u64,
}

/// A quoted rate `rate / denominator` from one asset to another, with the
/// time of the quote (0: unknown).
#[derive(Clone, Debug, PartialEq, Eq)]
pub struct CachedRate {
    pub rate: i128,
    pub denominator: i128,
    pub timestamp: u64,
    pub from_asset: String,
    pub to_asset: String,
}

/// The rate and denominator of the identity conversion: 18 decimal places.
pub const RATE_PRECISION: i128 = 1_000_000_000_000_000_000;

/// How many times the normal staleness limit a cached rate may be old.
pub const CACHE_LENIENCY: u64 = 3;

/// What `apply_conversion` returns for each input.
pub open spec fn conversion_of(
    amount: int,
    rate: int,
    denominator: int,
) -> Result<i128, OracleError> {
    if denominator == 0 {
        Err(OracleError::InvalidRate)
    } else if amount * rate > i128::MAX || amount * rate < i128::MIN {
        Err(OracleError::ConversionOverflow)
    } else if trunc_div(amount * rate, denominator) > i128::MAX {
        Err(OracleError::ConversionOverflow)
    } else if trunc_div(amount * rate, denominator) < 0 {
        Err(OracleError::InvalidRate)
    } else {
        Ok(trunc_div(amount * rate, denominator) as i128)
    }
}

/// Converts `amount` at `rate / denominator`, rounding toward zero.
pub fn apply_conversion(
    amount: i128,
    rate: i128,
    denominator: i128,
) -> (r: Result<i128, OracleError>)
    ensures
        r == conversion_of(amount as int, rate as int, denominator as int),
{
    if denominator == 0 {
        return Err(OracleError::InvalidRate);
    }
    let product = match amount.checked_mul(rate) {
        Some(p) => p,
        None => {
            return Err(OracleError::ConversionOverflow);
        },
    };
    let result = match product.checked_div(denominator) {
        Some(q) => q,
        None => {
            return Err(OracleError::ConversionOverflow);
        },
    };
    if result < 0 {
        return Err(OracleError::InvalidRate);
    }
    Ok(result)
}

/// The age at `now` of a quote made at `timestamp`; 0 where the quote lies
/// ahead.
pub open spec fn age(now: u64, timestamp: u64) -> int {
    if now >= timestamp {
        now - timestamp
    } else {
        0
    }
}

/// Why a quote is refused at `now`, if it is: `InvalidRate` unless rate and
/// denominator are positive; `StaleRate` where a limit is set, the time of
/// the quote is known, and the quote is older than the limit.
pub open spec fn rate_refused(quote: CachedRate, now: u64, max_staleness: u64) -> Option<
    OracleError,
> {
    if quote.rate <= 0 || quote.denominator <= 0 {
        Some(OracleError::InvalidRate)
    } else if max_staleness > 0 && quote.timestamp > 0 && age(now, quote.timestamp)
        > max_staleness {
        Some(OracleError::StaleRate)
    } else {
        None
    }
}

/// Checks that a quote is positive and not older than `max_staleness`.
pub fn validate_rate(rate_data: &CachedRate, current_timestamp: u64, max_staleness: u64) -> (r:
    Result<(), OracleError>)
    ensures
        match rate_refused(*rate_data, current_timestamp, max_staleness) {
            Some(e) => r == Err::<(), OracleError>(e),
            None => r == Ok::<(), OracleError>(()),
        },
{
    if rate_data.rate <= 0 {
        return Err(OracleError::InvalidRate);
    }
    if rate_data.denominator <= 0 {
        return Err(OracleError::InvalidRate);
    }
    if max_staleness > 0 && rate_data.timestamp > 0 {
        let age = current_timestamp.saturating_sub(rate_data.timestamp);
        if age > max_staleness {
            return Err(OracleError::StaleRate);
        }
    }
    Ok(())
}

/// What an oracle's reply amounts to: the quote, or `OracleTimeout` where
/// the oracle did not answer.
pub fn query_oracle(reply: Option<CachedRate>) -> (r: Result<CachedRate, OracleError>)
    ensures
        r == match reply {
            Some(quote) => Ok::<CachedRate, OracleError>(quote),
            None => Err::<CachedRate, OracleError>(OracleError::OracleTimeout),
        },
{
    match reply {
        Some(quote) => Ok(quote),
        None => Err(OracleError::OracleTimeout),
    }
}

/// The staleness limit for a cached rate: three times the normal one, or
/// the normal one where three times it cannot be held.
pub open spec fn lenient(max_staleness: u64) -> u64 {
    if max_staleness * 3 > u64::MAX {
        max_staleness
    } else {
        (max_staleness * 3) as u64
    }
}

/// The amount that `quote` converts `amount` into, the quote being checked
/// at `now` against `limit`.
pub open spec fn quote_applied(amount: i128, quote: CachedRate, now: u64, limit: u64) -> Result<
    i128,
    OracleError,
> {
    match rate_refused(quote, now, limit) {
        Some(e) => Err(e),
        None => conversion_of(amount as int, quote.rate as int, quote.denominator as int),
    }
}

/// The amount that a conversion through one oracle gives; `same_asset` says
/// whether the two assets are equal.
pub open spec fn converted_amount(
    reply: Option<CachedRate>,
    same_asset: bool,
    amount: i128,
    max_staleness: u64,
    cached_rate: Option<CachedRate>,
    now: u64,
) -> Result<i128, OracleError> {
    if amount <= 0 {
        Err(OracleError::InvalidAmount)
    } else if same_asset {
        Ok(amount)
    } else {
        match reply {
            Some(quote) => quote_applied(amount, quote, now, max_staleness),
            None => match cached_rate {
                Some(cache) => quote_applied(amount, cache, now, lenient(max_staleness)),
                None => Err(OracleError::FallbackFailed),
            },
        }
    }
}

/// The conversion of `amount` by `quote`, checked at `now` against `limit`
/// and stamped `timestamp`.
pub open spec fn converted_by(
    amount: i128,
    quote: CachedRate,
    from_asset: String,
    to_asset: String,
    now: u64,
    limit: u64,
    timestamp: u64,
) -> Result<ConversionResult, OracleError> {
    match quote_applied(amount, quote, now, limit) {
        Err(e) => Err(e),
        Ok(converted_amount) => Ok(
            ConversionResult {
                converted_amount,
                rate: quote.rate,
                denominator: quote.denominator,
                from_asset,
                to_asset,
                timestamp,
            },
        ),
    }
}

/// What a conversion through one oracle gives. `reply` is the oracle's
/// quote, `None` where it did not answer; `cached_rate` is the quote kept
/// from an earlier conversion, if any.
///
/// A non-positive amount is refused. Between equal assets the amount stands.
/// A quote that the oracle gave is checked against `max_staleness`, and the
/// conversion is stamped `now`. Where the oracle gave none, the cached quote
/// is checked against the lenient limit and the conversion is stamped with
/// the time of that quote; with no cached quote the conversion fails.
pub open spec fn conversion_outcome(
    reply: Option<CachedRate>,
    from_asset: String,
    to_asset: String,
    amount: i128,
    max_staleness: u64,
    cached_rate: Option<CachedRate>,
    now: u64,
) -> Result<ConversionResult, OracleError> {
    if amount <= 0 {
        Err(OracleError::InvalidAmount)
    } else if from_asset@ == to_asset@ {
        Ok(
            ConversionResult {
                converted_amount: amount,
                rate: RATE_PRECISION,
                denominator: RATE_PRECISION,
                from_asset,
                to_asset,
                timestamp: now,
            },
        )
    } else {
        match reply {
            Some(quote) => converted_by(
                amount,
                quote,
                from_asset,
                to_asset,
                now,
                max_staleness,
                now,
            ),
            None => match cached_rate {
                Some(cache) => converted_by(
                    amount,
                    cache,
                    from_asset,
                    to_asset,
                    now,
                    lenient(max_staleness),
                    cache.timestamp,
                ),
                None => Err(OracleError::FallbackFailed),
            },
        }
    }
}

/// Converts `amount` by `quote`.
fn convert_by(
    amount: i128,
    quote: &CachedRate,
    from_asset: &String,
    to_asset: &String,
    now: u64,
    limit: u64,
    timestamp: u64,
) -> (r: Result<ConversionResult, OracleError>)
    ensures
        r == converted_by(amount, *quote, *from_asset, *to_asset, now, limit, timestamp),
{
    match validate_rate(quote, now, limit) {
        Ok(_) => {},
        Err(e) => {
            return Err(e);
        },
    }
    let converted_amount = match apply_conversion(amount, quote.rate, quote.denominator) {
        Ok(converted) => converted,
        Err(e) => {
            return Err(e);
        },
    };
    Ok(
        ConversionResult {
            converted_amount,
            rate: quote.rate,
            denominator: quote.denominator,
            from_asset: from_asset.clone(),
            to_asset: to_asset.clone(),
            timestamp,
        },
    )
}

/// Converts `amount` of `from_asset` into `to_asset` by the quote that an
/// oracle gave, or by the cached quote where it gave none.
pub fn get_conversion_rate(
    reply: Option<CachedRate>,
    from_asset: &String,
    to_asset: &String,
    amount: i128,
    max_staleness: u64,
    cached_rate: Option<CachedRate>,
    now: u64,
) -> (r: Result<ConversionResult, OracleError>)
    ensures
        r == conversion_outcome(
            reply,
            *from_asset,
            *to_asset,
            amount,
            max_staleness,
            cached_rate,
            now,
        ),
        match r {
            Ok(conversion) => Ok::<i128, OracleError>(conversion.converted_amount),
            Err(e) => Err::<i128, OracleError>(e),
        } == converted_amount(
            reply,
            from_asset@ == to_asset@,
            amount,
            max_staleness,
            cached_rate,
            now,
        ),
{
    if amount <= 0 {
        return Err(OracleError::InvalidAmount);
    }
    if *from_asset == *to_asset {
        return Ok(
            ConversionResult {
                converted_amount: amount,
                rate: RATE_PRECISION,
                denominator: RATE_PRECISION,
                from_asset: from_asset.clone(),
                to_asset: to_asset.clone(),
                timestamp: now,
            },
        );
    }
    match query_oracle(reply) {
        Ok(quote) => convert_by(amount, &quote, from_asset, to_asset, now, max_staleness, now),
        Err(_) => match cached_rate {
            Some(cache) => {
                let staleness_limit = match max_staleness.checked_mul(CACHE_LENIENCY) {
                    Some(limit) => limit,
                    None => max_staleness,
                };
                convert_by(
                    amount,
                    &cache,
                    from_asset,
                    to_asset,
                    now,
                    staleness_limit,
                    cache.timestamp,
                )
            },
            None => Err(OracleError::FallbackFailed),
        },
    }
}

/// The two assets of a conversion, as the key under which its rate is kept.
#[derive(Clone, Debug, PartialEq, Eq)]
pub struct AssetPair {
    pub from_asset: String,
    pub to_asset: String,
}

impl Key for AssetPair {
    type Id = (Seq<char>, Seq<char>);

    open spec fn id(&self) -> (Seq<char>, Seq<char>) {
        (self.from_asset@, self.to_asset@)
    }

    fn matches(&self, other: &AssetPair) -> (same: bool) {
        self.from_asset == other.from_asset && self.to_asset == other.to_asset
    }
}

impl AssetPair {
    /// The key for the conversion from `from_asset` to `to_asset`.
    pub fn of(from_asset: &String, to_asset: &String) -> (pair: AssetPair)
        ensures
            pair.from_asset == *from_asset,
            pair.to_asset == *to_asset,
            pair.id() == (from_asset@, to_asset@),
    {
        AssetPair { from_asset: from_asset.clone(), to_asset: to_asset.clone() }
    }
}

impl CachedRate {
    /// A second copy of the quote.
    pub fn duplicate(&self) -> (copy: CachedRate)
        ensures
            copy == *self,
    {
        CachedRate {
            rate: self.rate,
            denominator: self.denominator,
            timestamp: self.timestamp,
            from_asset: self.from_asset.clone(),
            to_asset: self.to_asset.clone(),
        }
    }
}

/// An oracle that answers from a table of rates that its administrator
/// fills.
#[derive(Clone, Debug, PartialEq, Eq)]
pub struct MockOracleContract {
    pub admin: Address,
    pub rates: Registry<AssetPair, CachedRate>,
}

impl MockOracleContract {
    /// The table is in order.
    pub open spec fn wf(&self) -> bool {
        self.rates.wf()
    }

    /// Whether the table is in order.
    pub fn is_well_formed(&self) -> (ok: bool)
        ensures
            ok == self.wf(),
    {
        self.rates.is_well_formed()
    }

    /// An oracle under `admin` with no rates.
    pub fn initialize(admin: Address) -> (oracle: MockOracleContract)
        ensures
            oracle.wf(),
            oracle.admin == admin,
            oracle.rates@ == Map::<(Seq<char>, Seq<char>), CachedRate>::empty(),
    {
        MockOracleContract { admin, rates: Registry::new() }
    }

    /// Stores the rate `rate / denominator` from `from_asset` to `to_asset`,
    /// quoted at `now`.
    pub fn set_rate(
        &mut self,
        admin: &Address,
        from_asset: String,
        to_asset: String,
        rate: i128,
        denominator: i128,
        now: u64,
    )
        requires
            old(self).wf(),
            admin@ == old(self).admin@,
            rate > 0,
            denominator > 0,
        ensures
            final(self).wf(),
            final(self).admin == old(self).admin,
            final(self).rates@ == old(self).rates@.insert(
                (from_asset@, to_asset@),
                final(self).rates@[(from_asset@, to_asset@)],
            ),
            final(self).rates@[(from_asset@, to_asset@)].rate == rate,
            final(self).rates@[(from_asset@, to_asset@)].denominator == denominator,
            final(self).rates@[(from_asset@, to_asset@)].timestamp == now,
            final(self).rates@[(from_asset@, to_asset@)].from_asset@.len() == 0,
            final(self).rates@[(from_asset@, to_asset@)].to_asset@.len() == 0,
    {
        let quote = CachedRate {
            rate,
            denominator,
            timestamp: now,
            from_asset: String::new(),
            to_asset: String::new(),
        };
        self.rates.set(AssetPair { from_asset, to_asset }, quote);
    }

    /// The rate stored from `from_asset` to `to_asset`, named after the two
    /// assets; `None` where none is stored.
    pub fn query_rate(&self, from_asset: String, to_asset: String) -> (reply: Option<CachedRate>)
        requires
            self.wf(),
        ensures
            reply is Some <==> self.rates@.contains_key((from_asset@, to_asset@)),
            reply is Some ==> reply->0 == (CachedRate {
                from_asset,
                to_asset,
                ..self.rates@[(from_asset@, to_asset@)]
            }),
    {
        let pair = AssetPair { from_asset, to_asset };
        match self.rates.get(&pair) {
            Some(quote) => Some(
                CachedRate {
                    rate: quote.rate,
                    denominator: quote.denominator,
                    timestamp: quote.timestamp,
                    from_asset: pair.from_asset,
                    to_asset: pair.to_asset,
                },
            ),
            None => None,
        }
    }
}

} // verus!
