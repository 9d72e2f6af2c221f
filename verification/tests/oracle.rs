use gpay_remit::address::Address;
use gpay_remit::oracle::{
    apply_conversion, get_conversion_rate, query_oracle, validate_rate, CachedRate,
    MockOracleContract, OracleError, RATE_PRECISION,
};

fn addr(name: &str) -> Address {
    Address::from_str(name)
}

fn rate(
    rate: i128,
    denominator: i128,
    timestamp: u64,
    from_asset: &str,
    to_asset: &str,
) -> CachedRate {
    CachedRate {
        rate,
        denominator,
        timestamp,
        from_asset: String::from(from_asset),
        to_asset: String::from(to_asset),
    }
}

#[test]
fn test_mock_oracle_set_and_query() {
    let admin = addr("GADMIN");
    let mut oracle = MockOracleContract::initialize(admin.clone());

    let from = String::from("USDC");
    let to = String::from("EUR");

    oracle.set_rate(&admin, from.clone(), to.clone(), 920000, 1000000, 1000);

    let result = oracle.query_rate(from, to).unwrap();
    assert_eq!(result.rate, 920000);
    assert_eq!(result.denominator, 1000000);
    assert_eq!(result.timestamp, 1000);
}

#[test]
fn test_same_asset_conversion() {
    let asset = String::from("USDC");

    let result = get_conversion_rate(None, &asset, &asset, 5000, 3600, None, 1000).unwrap();

    assert_eq!(result.converted_amount, 5000);
}

#[test]
fn test_invalid_amount() {
    let from = String::from("USDC");
    let to = String::from("EUR");

    let result = get_conversion_rate(None, &from, &to, 0, 3600, None, 0);
    assert_eq!(result, Err(OracleError::InvalidAmount));

    let result = get_conversion_rate(None, &from, &to, -100, 3600, None, 0);
    assert_eq!(result, Err(OracleError::InvalidAmount));
}

#[test]
fn test_apply_conversion_math() {
    let result = apply_conversion(1000, 920000, 1000000).unwrap();
    assert_eq!(result, 920);

    let result = apply_conversion(10000, 85_000_000, 100_000_000).unwrap();
    assert_eq!(result, 8500);
}

#[test]
fn test_apply_conversion_zero_denominator() {
    let result = apply_conversion(1000, 920000, 0);
    assert_eq!(result, Err(OracleError::InvalidRate));
}

#[test]
fn test_validate_rate_stale() {
    let rate = rate(920000, 1000000, 100, "", "");
    let result = validate_rate(&rate, 5000, 3600);
    assert_eq!(result, Err(OracleError::StaleRate));
}

#[test]
fn test_validate_rate_valid() {
    let rate = rate(920000, 1000000, 3000, "", "");
    let result = validate_rate(&rate, 5000, 3600);
    assert!(result.is_ok());
}

#[test]
fn test_validate_rate_negative() {
    let rate = rate(-1, 1000000, 1000, "", "");
    let result = validate_rate(&rate, 1000, 3600);
    assert_eq!(result, Err(OracleError::InvalidRate));
}

#[test]
fn test_oracle_cross_contract_call() {
    let admin = addr("GADMIN");
    let mut oracle = MockOracleContract::initialize(admin.clone());

    let from = String::from("USDC");
    let to = String::from("EUR");

    oracle.set_rate(&admin, from.clone(), to.clone(), 920000, 1000000, 1000);

    let reply = oracle.query_rate(from.clone(), to.clone());
    let result = get_conversion_rate(reply, &from, &to, 1000, 3600, None, 1000).unwrap();

    assert_eq!(result.rate, 920000);
    assert_eq!(result.denominator, 1000000);
    assert_eq!(result.converted_amount, 920);
}

#[test]
fn test_fallback_to_cached_rate() {
    let from = String::from("USDC");
    let to = String::from("EUR");

    let cached = rate(910000, 1000000, 800, "USDC", "EUR");

    // The oracle does not answer.
    let result = get_conversion_rate(None, &from, &to, 1000, 3600, Some(cached), 1000);

    assert!(result.is_ok());
    let conversion = result.unwrap();
    assert_eq!(conversion.converted_amount, 910);
    assert_eq!(conversion.rate, 910000);
}

#[test]
fn conversion_rounds_toward_zero() {
    assert_eq!(apply_conversion(1000, 920000, 1000000), Ok(920));
    assert_eq!(apply_conversion(1, 999999, 1000000), Ok(0));
    assert_eq!(apply_conversion(7, 1, 2), Ok(3));
    assert_eq!(apply_conversion(-7, -1, 2), Ok(3));
    assert_eq!(apply_conversion(-1, 1, 2), Ok(0));
}

#[test]
fn conversion_that_would_be_negative_is_an_invalid_rate() {
    assert_eq!(apply_conversion(1000, -920000, 1000000), Err(OracleError::InvalidRate));
    assert_eq!(apply_conversion(-1000, 920000, 1000000), Err(OracleError::InvalidRate));
    assert_eq!(apply_conversion(1000, 920000, -1000000), Err(OracleError::InvalidRate));
}

#[test]
fn conversion_whose_product_overflows_fails() {
    assert_eq!(apply_conversion(i128::MAX, 2, 2), Err(OracleError::ConversionOverflow));
    assert_eq!(apply_conversion(i128::MIN, -1, 1), Err(OracleError::ConversionOverflow));
    assert_eq!(apply_conversion(i128::MIN, 1, -1), Err(OracleError::ConversionOverflow));
    assert_eq!(apply_conversion(i128::MAX, 1, 1), Ok(i128::MAX));
}

#[test]
fn rate_is_stale_only_past_the_limit() {
    let quote = rate(1, 1, 1000, "", "");
    assert_eq!(validate_rate(&quote, 4600, 3600), Ok(()));
    assert_eq!(validate_rate(&quote, 4601, 3600), Err(OracleError::StaleRate));
    // No limit, or no known time of the quote: never stale.
    assert_eq!(validate_rate(&quote, u64::MAX, 0), Ok(()));
    assert_eq!(validate_rate(&rate(1, 1, 0, "", ""), u64::MAX, 1), Ok(()));
    // A quote from the future has no age.
    assert_eq!(validate_rate(&quote, 10, 1), Ok(()));
    assert_eq!(validate_rate(&rate(1, 0, 1000, "", ""), 1000, 1), Err(OracleError::InvalidRate));
    assert_eq!(validate_rate(&rate(0, 1, 1000, "", ""), 1000, 1), Err(OracleError::InvalidRate));
}

#[test]
fn cached_rate_is_allowed_three_times_the_staleness() {
    let from = String::from("USDC");
    let to = String::from("EUR");
    let cached = rate(910000, 1000000, 1000, "USDC", "EUR");

    // Age 300 against a limit of 100: stale for an oracle, fresh for the cache.
    let fresh = get_conversion_rate(Some(cached.clone()), &from, &to, 1000, 100, None, 1300);
    assert_eq!(fresh, Err(OracleError::StaleRate));
    let from_cache = get_conversion_rate(None, &from, &to, 1000, 100, Some(cached.clone()), 1300);
    let conversion = from_cache.unwrap();
    assert_eq!(conversion.converted_amount, 910);
    assert_eq!(conversion.timestamp, 1000);

    let too_old = get_conversion_rate(None, &from, &to, 1000, 100, Some(cached), 1301);
    assert_eq!(too_old, Err(OracleError::StaleRate));
}

#[test]
fn conversion_without_oracle_or_cache_fails() {
    let from = String::from("USDC");
    let to = String::from("EUR");
    let result = get_conversion_rate(None, &from, &to, 1000, 3600, None, 1000);
    assert_eq!(result, Err(OracleError::FallbackFailed));
}

#[test]
fn conversion_by_a_fresh_quote_is_stamped_now() {
    let from = String::from("USDC");
    let to = String::from("EUR");
    let quote = rate(920000, 1000000, 900, "USDC", "EUR");
    let conversion = get_conversion_rate(Some(quote), &from, &to, 1000, 3600, None, 1000).unwrap();
    assert_eq!(conversion.converted_amount, 920);
    assert_eq!(conversion.timestamp, 1000);
    assert_eq!(conversion.from_asset, from);
    assert_eq!(conversion.to_asset, to);
}

#[test]
fn same_asset_conversion_is_the_identity_at_full_precision() {
    let asset = String::from("USDC");
    // The quote is not even looked at.
    let quote = rate(-5, 0, 1, "USDC", "USDC");
    let conversion = get_conversion_rate(Some(quote), &asset, &asset, 42, 1, None, 77).unwrap();
    assert_eq!(conversion.converted_amount, 42);
    assert_eq!(conversion.rate, RATE_PRECISION);
    assert_eq!(conversion.denominator, RATE_PRECISION);
    assert_eq!(conversion.timestamp, 77);
}

#[test]
fn oracle_that_does_not_answer_times_out() {
    assert_eq!(query_oracle(None), Err(OracleError::OracleTimeout));
    let quote = rate(1, 2, 3, "A", "B");
    assert_eq!(query_oracle(Some(quote.clone())), Ok(quote));
}

#[test]
fn mock_oracle_names_the_assets_in_its_answer() {
    let admin = addr("GADMIN");
    let mut oracle = MockOracleContract::initialize(admin.clone());
    oracle.set_rate(&admin, String::from("USDC"), String::from("EUR"), 92, 100, 5);
    oracle.set_rate(&admin, String::from("USDC"), String::from("GBP"), 80, 100, 6);
    oracle.set_rate(&admin, String::from("USDC"), String::from("EUR"), 93, 100, 7);

    let eur = oracle.query_rate(String::from("USDC"), String::from("EUR")).unwrap();
    assert_eq!(eur, rate(93, 100, 7, "USDC", "EUR"));
    let gbp = oracle.query_rate(String::from("USDC"), String::from("GBP")).unwrap();
    assert_eq!(gbp, rate(80, 100, 6, "USDC", "GBP"));
    assert!(oracle.query_rate(String::from("EUR"), String::from("USDC")).is_none());
}
