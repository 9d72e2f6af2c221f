use gpay_remit::address::{Address, Asset};
use gpay_remit::aml::{AmlStatus, MockAmlOracleContract};
use gpay_remit::batches::{BatchDeposit, Payment};
use gpay_remit::oracle::{CachedRate, MockOracleContract};
use gpay_remit::remittance_hub::{
    BatchStatus, EscrowRequest, InvoiceStatus, RemittanceError, RemittanceHubContract,
    RemittanceStatus,
};
use gpay_remit::upgradeable::UpgradeError;

fn addr(name: &str) -> Address {
    Address::from_str(name)
}

fn asset(code: &str) -> Asset {
    Asset { code: String::from(code), issuer: addr("GISSUER") }
}

fn s(text: &str) -> String {
    String::from(text)
}

fn id_list(ids: &[u64]) -> soroban_sdk::Vec<u64> {
    let env = soroban_sdk::Env::default();
    let mut list = soroban_sdk::Vec::new(&env);
    for id in ids {
        list.push_back(*id);
    }
    list
}

/// A hub under GADMIN with the oracles GPRIMARY and GSECONDARY and a
/// staleness limit of 3600.
fn hub() -> (RemittanceHubContract, Address) {
    let admin = addr("GADMIN");
    let mut hub = RemittanceHubContract::new();
    hub.init_hub(admin.clone(), addr("GPRIMARY"), addr("GSECONDARY"), 3600).unwrap();
    (hub, admin)
}

fn invoice_at_1000(hub: &mut RemittanceHubContract, sender: &Address, recipient: &Address) -> u64 {
    hub.generate_invoice(
        sender.clone(),
        recipient.clone(),
        1000,
        asset("USDC"),
        2000,
        s("Payment"),
        0,
        s("Memo"),
        None,
        1000,
    )
    .unwrap()
}

#[test]
fn test_send_remittance() {
    let mut hub = RemittanceHubContract::new();
    let from = addr("GFROM");
    let to = addr("GTO");

    let remittance_id = hub.send_remittance(from, to, 5000, s("USD"), 0, None, 0).unwrap();
    let remittance = hub.get_remittance(remittance_id);
    assert!(remittance.is_some());
}

#[test]
fn test_generate_invoice() {
    let mut hub = RemittanceHubContract::new();
    let sender = addr("GSENDER");
    let recipient = addr("GRECIPIENT");

    let invoice_id = hub
        .generate_invoice(
            sender.clone(),
            recipient.clone(),
            1000,
            asset("USDC"),
            2000,
            s("Payment for services"),
            0,
            s("Remittance memo"),
            None,
            1000,
        )
        .unwrap();
    assert_eq!(invoice_id, 1);

    let invoice = hub.get_invoice(invoice_id);
    assert!(invoice.is_some());

    let invoice_data = invoice.unwrap();
    assert_eq!(invoice_data.amount, 1000);
    assert_eq!(invoice_data.status, InvoiceStatus::Unpaid);
    assert_eq!(invoice_data.sender, sender);
    assert_eq!(invoice_data.recipient, recipient);
}

#[test]
fn test_mark_invoice_paid() {
    let mut hub = RemittanceHubContract::new();
    let sender = addr("GSENDER");
    let recipient = addr("GRECIPIENT");
    let invoice_id = invoice_at_1000(&mut hub, &sender, &recipient);

    hub.mark_invoice_paid(invoice_id, &sender, 1500).unwrap();

    let invoice = hub.get_invoice(invoice_id).unwrap();
    assert_eq!(invoice.status, InvoiceStatus::Paid);
    assert_eq!(invoice.paid_at, 1500);
}

#[test]
fn test_mark_invoice_overdue() {
    let mut hub = RemittanceHubContract::new();
    let sender = addr("GSENDER");
    let recipient = addr("GRECIPIENT");
    let invoice_id = invoice_at_1000(&mut hub, &sender, &recipient);

    hub.mark_invoice_overdue(invoice_id, 2500).unwrap();

    let invoice = hub.get_invoice(invoice_id).unwrap();
    assert_eq!(invoice.status, InvoiceStatus::Overdue);
}

#[test]
fn test_cancel_invoice() {
    let mut hub = RemittanceHubContract::new();
    let sender = addr("GSENDER");
    let recipient = addr("GRECIPIENT");
    let invoice_id = invoice_at_1000(&mut hub, &sender, &recipient);

    hub.cancel_invoice(invoice_id, &sender).unwrap();

    let invoice = hub.get_invoice(invoice_id).unwrap();
    assert_eq!(invoice.status, InvoiceStatus::Cancelled);
}

#[test]
fn test_update_invoice_amount() {
    let mut hub = RemittanceHubContract::new();
    let sender = addr("GSENDER");
    let recipient = addr("GRECIPIENT");
    let invoice_id = invoice_at_1000(&mut hub, &sender, &recipient);

    hub.update_invoice_amount(invoice_id, &sender, 1500).unwrap();

    let invoice = hub.get_invoice(invoice_id).unwrap();
    assert_eq!(invoice.amount, 1500);

    let expected_fee = 1500 * 250 / 10000;
    assert_eq!(invoice.fees, expected_fee);
    assert_eq!(invoice.total_due, 1500 + expected_fee);
}

#[test]
fn test_invoice_with_escrow_link() {
    let mut hub = RemittanceHubContract::new();
    let sender = addr("GSENDER");
    let recipient = addr("GRECIPIENT");

    let escrow_id = 123;
    let invoice_id = hub
        .generate_invoice(
            sender,
            recipient,
            1000,
            asset("USDC"),
            2000,
            s("Payment"),
            escrow_id,
            s("Memo"),
            None,
            1000,
        )
        .unwrap();

    let linked_invoice_id = hub.get_invoice_by_escrow(escrow_id);
    assert!(linked_invoice_id.is_some());
    assert_eq!(linked_invoice_id.unwrap(), invoice_id);
}

#[test]
fn test_invoice_due_date_validation() {
    let mut hub = RemittanceHubContract::new();

    let result = hub.generate_invoice(
        addr("GSENDER"),
        addr("GRECIPIENT"),
        1000,
        asset("USDC"),
        1500,
        s("Payment"),
        0,
        s("Memo"),
        None,
        2000,
    );
    assert_eq!(result, Err(RemittanceError::DueDateInPast));
}

#[test]
fn test_initialize_hub() {
    let admin = addr("GADMIN");
    let primary_oracle = addr("GPRIMARY");
    let secondary_oracle = addr("GSECONDARY");
    let mut hub = RemittanceHubContract::new();

    hub.init_hub(admin.clone(), primary_oracle.clone(), secondary_oracle.clone(), 3600).unwrap();

    let config = hub.get_oracle_config();
    assert!(config.is_some());
    let cfg = config.unwrap();
    assert_eq!(cfg.admin, admin);
    assert_eq!(cfg.primary_oracle, primary_oracle);
    assert_eq!(cfg.secondary_oracle, secondary_oracle);
    assert_eq!(cfg.max_staleness, 3600);
}

#[test]
fn test_initialize_double_init() {
    let admin = addr("GADMIN");
    let oracle = addr("GORACLE");
    let mut hub = RemittanceHubContract::new();

    hub.init_hub(admin.clone(), oracle.clone(), oracle.clone(), 3600).unwrap();

    let result = hub.init_hub(admin, oracle.clone(), oracle, 3600);
    assert_eq!(result, Err(RemittanceError::AlreadyInitialized));
}

#[test]
fn test_set_oracle_addresses() {
    let (mut hub, admin) = hub();
    let new_primary = addr("GNEWPRIMARY");
    let new_secondary = addr("GNEWSECONDARY");

    hub.set_oracle(&admin, new_primary.clone(), new_secondary.clone()).unwrap();

    let config = hub.get_oracle_config().unwrap();
    assert_eq!(config.primary_oracle, new_primary);
    assert_eq!(config.secondary_oracle, new_secondary);
}

#[test]
fn test_set_oracle_unauthorized() {
    let (mut hub, _admin) = hub();
    let other = addr("GOTHER");

    let result = hub.set_oracle(&other, addr("GORACLE"), addr("GORACLE"));
    assert_eq!(result, Err(RemittanceError::Unauthorized));
}

#[test]
fn test_set_cached_rate() {
    let (mut hub, admin) = hub();

    hub.set_cached_rate(&admin, s("USDC"), s("EUR"), 920000, 1000000, 1000).unwrap();
}

#[test]
fn test_set_cached_rate_invalid() {
    let (mut hub, admin) = hub();

    let result = hub.set_cached_rate(&admin, s("USDC"), s("EUR"), 0, 1000000, 0);
    assert_eq!(result, Err(RemittanceError::InvalidRate));

    let result = hub.set_cached_rate(&admin, s("USDC"), s("EUR"), 920000, -1, 0);
    assert_eq!(result, Err(RemittanceError::InvalidRate));
}

#[test]
fn test_convert_currency_with_oracle() {
    let oracle_admin = addr("GORACLEADMIN");
    let mut oracle = MockOracleContract::initialize(oracle_admin.clone());
    oracle.set_rate(&oracle_admin, s("USDC"), s("EUR"), 920000, 1000000, 1000);

    let (mut hub, _admin) = hub();

    // Both oracles are the same one.
    let primary = oracle.query_rate(s("USDC"), s("EUR"));
    let secondary = oracle.query_rate(s("USDC"), s("EUR"));
    let result = hub.convert_currency(1000, s("USDC"), s("EUR"), primary, secondary, 1000).unwrap();
    assert_eq!(result.converted_amount, 920);
    assert_eq!(result.rate, 920000);
    assert_eq!(result.denominator, 1000000);
}

#[test]
fn test_convert_currency_same_asset() {
    let (mut hub, _admin) = hub();

    let result = hub.convert_currency(5000, s("USDC"), s("USDC"), None, None, 1000).unwrap();
    assert_eq!(result.converted_amount, 5000);
}

#[test]
fn test_convert_currency_invalid_amount() {
    let (mut hub, _admin) = hub();

    let result = hub.convert_currency(0, s("USDC"), s("EUR"), None, None, 0);
    assert_eq!(result, Err(RemittanceError::InvalidAmount));
}

#[test]
fn test_convert_currency_no_oracle_config() {
    let mut hub = RemittanceHubContract::new();

    let result = hub.convert_currency(1000, s("USDC"), s("EUR"), None, None, 0);
    assert_eq!(result, Err(RemittanceError::OracleNotConfigured));
}

#[test]
fn test_convert_currency_fallback_to_secondary() {
    let oracle_admin = addr("GORACLEADMIN");
    let mut secondary = MockOracleContract::initialize(oracle_admin.clone());
    secondary.set_rate(&oracle_admin, s("USDC"), s("EUR"), 910000, 1000000, 1000);

    let (mut hub, admin) = hub();

    let cached = CachedRate {
        rate: 900000,
        denominator: 1000000,
        timestamp: 800,
        from_asset: s("USDC"),
        to_asset: s("EUR"),
    };
    hub.set_cached_rate(
        &admin,
        s("USDC"),
        s("EUR"),
        cached.rate,
        cached.denominator,
        1000,
    )
    .unwrap();

    // The primary oracle does not answer; the secondary comes before the
    // cache.
    let reply = secondary.query_rate(s("USDC"), s("EUR"));
    let result = hub.convert_currency(1000, s("USDC"), s("EUR"), None, reply, 1000).unwrap();
    assert_eq!(result.converted_amount, 910);
}

#[test]
fn test_set_max_staleness() {
    let (mut hub, admin) = hub();

    hub.set_max_staleness(&admin, 7200).unwrap();

    let config = hub.get_oracle_config().unwrap();
    assert_eq!(config.max_staleness, 7200);
}

#[test]
fn test_get_conversion_rate() {
    let oracle_admin = addr("GORACLEADMIN");
    let mut oracle = MockOracleContract::initialize(oracle_admin.clone());
    oracle.set_rate(&oracle_admin, s("USDC"), s("EUR"), 850000, 1000000, 1000);

    let (mut hub, _admin) = hub();

    let primary = oracle.query_rate(s("USDC"), s("EUR"));
    let secondary = oracle.query_rate(s("USDC"), s("EUR"));
    let result =
        hub.get_conversion_rate(s("USDC"), s("EUR"), 10000, primary, secondary, 1000).unwrap();
    assert_eq!(result.converted_amount, 8500);
    assert_eq!(result.rate, 850000);
}

#[test]
fn test_generate_invoice_with_oracle_conversion() {
    let oracle_admin = addr("GORACLEADMIN");
    let mut oracle = MockOracleContract::initialize(oracle_admin.clone());
    oracle.set_rate(&oracle_admin, s("EUR"), s("USD"), 1_080_000, 1_000_000, 1000);

    let (mut hub, _admin) = hub();

    let reply = oracle.query_rate(s("EUR"), s("USD"));
    let invoice_id = hub
        .generate_invoice(
            addr("GSENDER"),
            addr("GRECIPIENT"),
            1000,
            asset("EUR"),
            2000,
            s("Cross-border payment"),
            0,
            s("Memo"),
            reply,
            1000,
        )
        .unwrap();

    let invoice = hub.get_invoice(invoice_id).unwrap();
    assert_eq!(invoice.amount, 1000);
    assert_eq!(invoice.converted_amount, 1080);
}

#[test]
fn test_configure_aml() {
    let (mut hub, admin) = hub();
    let oracle_addr = addr("CAMLORACLE");

    hub.configure_aml(admin.clone(), oracle_addr.clone(), 50).unwrap();

    let config = hub.get_aml_config();
    assert!(config.is_some());
    let cfg = config.unwrap();
    assert_eq!(cfg.admin, admin);
    assert_eq!(cfg.oracle_address, oracle_addr);
    assert_eq!(cfg.risk_threshold, 50);
    assert!(cfg.enabled);
}

#[test]
fn test_configure_aml_unauthorized() {
    let (mut hub, _admin) = hub();
    let other = addr("GOTHER");

    let result = hub.configure_aml(other, addr("CAMLORACLE"), 60);
    assert_eq!(result, Err(RemittanceError::Unauthorized));
}

#[test]
fn test_set_aml_threshold() {
    let (mut hub, admin) = hub();
    hub.configure_aml(admin.clone(), addr("CAMLORACLE"), 50).unwrap();

    hub.set_aml_threshold(&admin, 75).unwrap();

    let config = hub.get_aml_config().unwrap();
    assert_eq!(config.risk_threshold, 75);
}

#[test]
fn test_set_aml_oracle() {
    let (mut hub, admin) = hub();
    let new_oracle = addr("CNEWORACLE");
    hub.configure_aml(admin.clone(), addr("CAMLORACLE"), 50).unwrap();

    hub.set_aml_oracle(&admin, new_oracle.clone()).unwrap();

    let config = hub.get_aml_config().unwrap();
    assert_eq!(config.oracle_address, new_oracle);
}

#[test]
fn test_send_remittance_no_aml_config() {
    let mut hub = RemittanceHubContract::new();

    let remittance_id =
        hub.send_remittance(addr("GFROM"), addr("GTO"), 5000, s("USD"), 0, None, 0).unwrap();
    let remittance = hub.get_remittance(remittance_id).unwrap();
    assert_eq!(remittance.status, RemittanceStatus::Pending);
}

/// A hub that screens against a threshold of 50, and the score that the
/// screening oracle reports for a transfer from `from` to `to`, `from`
/// having the score `score`.
fn screened_hub(from: &Address, to: &Address, score: u32) -> (RemittanceHubContract, Address, u32) {
    let admin = addr("GADMIN");
    let mut oracle = MockAmlOracleContract::initialize(admin.clone());
    oracle.set_risk_score(&admin, from.clone(), score);

    let (mut hub, admin) = hub();
    hub.configure_aml(admin.clone(), addr("CAMLORACLE"), 50).unwrap();
    let reply = oracle.screen(from, to, 5000);
    (hub, admin, reply)
}

#[test]
fn test_send_remittance_aml_clear() {
    let from = addr("GFROM");
    let to = addr("GTO");
    let (mut hub, _admin, reply) = screened_hub(&from, &to, 20);

    let remittance_id = hub.send_remittance(
        from,
        to,
        5000,
        s("USD"),
        0,
        Some(reply),
        1000,
    )
    .unwrap();
    let remittance = hub.get_remittance(remittance_id).unwrap();
    assert_eq!(remittance.status, RemittanceStatus::Pending);

    let flag = hub.get_aml_flag(remittance_id);
    assert!(flag.is_none());
}

#[test]
fn test_send_remittance_aml_flagged() {
    let from = addr("GFROM");
    let to = addr("GTO");
    let (mut hub, _admin, reply) = screened_hub(&from, &to, 80);

    let remittance_id = hub.send_remittance(
        from,
        to,
        5000,
        s("USD"),
        0,
        Some(reply),
        1000,
    )
    .unwrap();
    let remittance = hub.get_remittance(remittance_id).unwrap();
    assert_eq!(remittance.status, RemittanceStatus::Flagged);

    let flag = hub.get_aml_flag(remittance_id);
    assert!(flag.is_some());
    let flag_data = flag.unwrap();
    assert_eq!(flag_data.risk_score, 80);
    assert_eq!(flag_data.status, AmlStatus::Flagged);
}

#[test]
fn test_send_remittance_aml_oracle_failure() {
    let (mut hub, admin) = hub();
    hub.configure_aml(admin, addr("CBOGUS"), 50).unwrap();

    // The screening oracle does not answer.
    let remittance_id =
        hub.send_remittance(addr("GFROM"), addr("GTO"), 5000, s("USD"), 0, None, 1000).unwrap();
    let remittance = hub.get_remittance(remittance_id).unwrap();
    assert_eq!(remittance.status, RemittanceStatus::Review);

    let flag = hub.get_aml_flag(remittance_id);
    assert!(flag.is_some());
    let flag_data = flag.unwrap();
    assert_eq!(flag_data.status, AmlStatus::Reviewing);
}

#[test]
fn test_complete_remittance_flagged_blocked() {
    let from = addr("GFROM");
    let to = addr("GTO");
    let (mut hub, _admin, reply) = screened_hub(&from, &to, 80);

    let remittance_id = hub.send_remittance(
        from,
        to,
        5000,
        s("USD"),
        0,
        Some(reply),
        1000,
    )
    .unwrap();

    let result = hub.complete_remittance(remittance_id);
    assert_eq!(result, Err(RemittanceError::AmlHighRisk));
}

#[test]
fn test_clear_aml_flag_and_complete() {
    let from = addr("GFROM");
    let to = addr("GTO");
    let (mut hub, admin, reply) = screened_hub(&from, &to, 80);

    let remittance_id = hub.send_remittance(
        from,
        to,
        5000,
        s("USD"),
        0,
        Some(reply),
        1000,
    )
    .unwrap();

    let remittance = hub.get_remittance(remittance_id).unwrap();
    assert_eq!(remittance.status, RemittanceStatus::Flagged);

    hub.clear_aml_flag(&admin, remittance_id).unwrap();

    let flag = hub.get_aml_flag(remittance_id).unwrap();
    assert_eq!(flag.status, AmlStatus::Cleared);

    let remittance = hub.get_remittance(remittance_id).unwrap();
    assert_eq!(remittance.status, RemittanceStatus::Pending);

    hub.complete_remittance(remittance_id).unwrap();

    let remittance = hub.get_remittance(remittance_id).unwrap();
    assert_eq!(remittance.status, RemittanceStatus::Complete);
}

#[test]
fn test_clear_aml_flag_unauthorized() {
    let from = addr("GFROM");
    let to = addr("GTO");
    let (mut hub, _admin, reply) = screened_hub(&from, &to, 80);

    let remittance_id = hub.send_remittance(
        from,
        to,
        5000,
        s("USD"),
        0,
        Some(reply),
        1000,
    )
    .unwrap();

    let other = addr("GOTHER");
    let result = hub.clear_aml_flag(&other, remittance_id);
    assert_eq!(result, Err(RemittanceError::Unauthorized));
}

#[test]
fn test_clear_aml_flag_not_found() {
    let (mut hub, admin) = hub();
    hub.configure_aml(admin.clone(), addr("CAMLORACLE"), 50).unwrap();

    let result = hub.clear_aml_flag(&admin, 999);
    assert_eq!(result, Err(RemittanceError::AmlFlagNotFound));
}

#[test]
fn test_complete_remittance_review_blocked() {
    let (mut hub, admin) = hub();
    hub.configure_aml(admin, addr("CBOGUS"), 50).unwrap();

    let remittance_id =
        hub.send_remittance(addr("GFROM"), addr("GTO"), 5000, s("USD"), 0, None, 1000).unwrap();

    let result = hub.complete_remittance(remittance_id);
    assert_eq!(result, Err(RemittanceError::AmlHighRisk));
}

#[test]
fn test_set_aml_threshold_unauthorized() {
    let (mut hub, admin) = hub();
    let other = addr("GOTHER");
    hub.configure_aml(admin, addr("CAMLORACLE"), 50).unwrap();

    let result = hub.set_aml_threshold(&other, 75);
    assert_eq!(result, Err(RemittanceError::Unauthorized));
}

#[test]
fn test_set_aml_threshold_not_configured() {
    let (mut hub, admin) = hub();

    let result = hub.set_aml_threshold(&admin, 75);
    assert_eq!(result, Err(RemittanceError::AmlNotConfigured));
}

fn request(recipient: &Address, amount: i128, expiration_timestamp: u64) -> EscrowRequest {
    EscrowRequest {
        recipient: recipient.clone(),
        amount,
        asset: asset("USDC"),
        expiration_timestamp,
    }
}

#[test]
fn test_batch_create_escrows_success() {
    let mut hub = RemittanceHubContract::new();
    let sender = addr("GSENDER");

    let requests =
        vec![request(&addr("GRECIPIENT1"), 1000, 2000), request(&addr("GRECIPIENT2"), 2000, 3000)];

    let ids = hub.batch_create_escrows(&sender, requests, 1000).unwrap();
    assert_eq!(ids.len(), 2);
}

#[test]
fn test_batch_create_escrows_too_large() {
    let mut hub = RemittanceHubContract::new();
    let sender = addr("GSENDER");
    let recipient = addr("GRECIPIENT");

    let mut requests = Vec::new();
    for _ in 0..11 {
        requests.push(request(&recipient, 100, 2000));
    }

    let result = hub.batch_create_escrows(&sender, requests, 0);
    assert_eq!(result, Err(RemittanceError::BatchTooLarge));
}

#[test]
fn test_batch_deposit_and_release() {
    let mut hub = RemittanceHubContract::new();
    let sender = addr("GSENDER");
    let recipient = addr("GRECIPIENT");

    let requests = vec![request(&recipient, 1000, 2000), request(&recipient, 2000, 3000)];

    let ids = hub.batch_create_escrows(&sender, requests, 1000).unwrap();

    let deposit = hub.batch_deposit(&sender, &id_list(&ids)).unwrap();
    assert_eq!(deposit.total_transfer, 3075);

    let payments = hub.batch_release(&recipient, &id_list(&ids)).unwrap();
    let received: i128 = payments.iter().filter(|p| p.to == recipient).map(|p| p.amount).sum();
    assert_eq!(received, 3000);
}

#[test]
fn batch_numbers_follow_the_counter_and_escrows_are_pending() {
    let mut hub = RemittanceHubContract::new();
    let sender = addr("GSENDER");
    let first = hub.batch_create_escrows(&sender, vec![request(&addr("GR1"), 10, 5)], 1).unwrap();
    assert_eq!(first, vec![1]);
    let next = hub
        .batch_create_escrows(
            &sender,
            vec![request(&addr("GR2"), 20, 5), request(&addr("GR3"), 30, 6)],
            1,
        )
        .unwrap();
    assert_eq!(next, vec![2, 3]);
    assert_eq!(hub.escrow_counter, 3);
    let third = hub.escrows.get(&3).unwrap();
    assert_eq!(third.sender, sender);
    assert_eq!(third.recipient, addr("GR3"));
    assert_eq!(third.amount, 30);
    assert_eq!(third.expiration_timestamp, 6);
    assert_eq!(third.status, BatchStatus::Pending);
}

#[test]
fn batch_with_a_bad_request_opens_nothing() {
    let mut hub = RemittanceHubContract::new();
    let sender = addr("GSENDER");
    let before = hub.clone();

    let requests = vec![request(&addr("GR1"), 10, 5), request(&addr("GR2"), 0, 5)];
    assert_eq!(hub.batch_create_escrows(&sender, requests, 1), Err(RemittanceError::InvalidAmount));
    assert_eq!(hub, before);

    let requests = vec![request(&addr("GR1"), 10, 5), request(&addr("GR2"), 10, 1)];
    assert_eq!(hub.batch_create_escrows(&sender, requests, 1), Err(RemittanceError::DueDateInPast));
    assert_eq!(hub, before);

    // An amount that is not positive is reported before a date that is past.
    let requests = vec![request(&addr("GR1"), -1, 0)];
    assert_eq!(hub.batch_create_escrows(&sender, requests, 1), Err(RemittanceError::InvalidAmount));
}

#[test]
fn batch_that_runs_out_of_numbers_opens_nothing() {
    let mut hub = RemittanceHubContract::new();
    hub.escrow_counter = u64::MAX - 1;
    let sender = addr("GSENDER");
    let before = hub.clone();

    let requests = vec![request(&addr("GR1"), 10, 5), request(&addr("GR2"), 10, 5)];
    assert_eq!(hub.batch_create_escrows(&sender, requests, 1), Err(RemittanceError::InvalidAmount));
    assert_eq!(hub, before);

    let ids = hub.batch_create_escrows(&sender, vec![request(&addr("GR1"), 10, 5)], 1).unwrap();
    assert_eq!(ids, vec![u64::MAX]);
}

#[test]
fn batch_deposit_is_all_or_nothing() {
    let mut hub = RemittanceHubContract::new();
    let sender = addr("GSENDER");
    let recipient = addr("GRECIPIENT");
    let ids = hub
        .batch_create_escrows(
            &sender,
            vec![request(&recipient, 1000, 9), request(&recipient, 2000, 9)],
            1,
        )
        .unwrap();
    let before = hub.clone();

    assert_eq!(hub.batch_deposit(&sender, &id_list(&[1, 7])), Err(RemittanceError::NotFound));
    assert_eq!(hub, before);
    assert_eq!(
        hub.batch_deposit(&addr("GOTHER"), &id_list(&ids)),
        Err(RemittanceError::Unauthorized)
    );
    assert_eq!(hub, before);
    // An escrow named twice would be funded twice.
    assert_eq!(
        hub.batch_deposit(&sender, &id_list(&[1, 2, 1])),
        Err(RemittanceError::InvalidStatus)
    );
    assert_eq!(hub, before);

    let deposit = hub.batch_deposit(&sender, &id_list(&ids)).unwrap();
    assert_eq!(deposit, BatchDeposit { total_amount: 3000, total_fees: 75, total_transfer: 3075 });
    assert_eq!(hub.escrows.get(&1).unwrap().status, BatchStatus::Funded);
    assert_eq!(hub.escrows.get(&2).unwrap().status, BatchStatus::Funded);

    // Funded escrows are not funded again.
    assert_eq!(hub.batch_deposit(&sender, &id_list(&ids)), Err(RemittanceError::InvalidStatus));
}

#[test]
fn batch_release_pays_each_recipient_in_order() {
    let mut hub = RemittanceHubContract::new();
    let sender = addr("GSENDER");
    let ids = hub
        .batch_create_escrows(
            &sender,
            vec![request(&addr("GR1"), 1000, 9), request(&addr("GR2"), 2000, 9)],
            1,
        )
        .unwrap();

    // Nothing is released before it is funded.
    assert_eq!(hub.batch_release(&sender, &id_list(&ids)), Err(RemittanceError::InvalidStatus));
    hub.batch_deposit(&sender, &id_list(&ids)).unwrap();
    let before = hub.clone();

    // A recipient may release their own escrow only.
    assert_eq!(hub.batch_release(&addr("GR1"), &id_list(&ids)), Err(RemittanceError::Unauthorized));
    assert_eq!(hub, before);
    assert_eq!(hub.batch_release(&sender, &id_list(&[2, 2])), Err(RemittanceError::InvalidStatus));
    assert_eq!(hub, before);
    assert_eq!(hub.batch_release(&sender, &id_list(&[3])), Err(RemittanceError::NotFound));

    let payments = hub.batch_release(&sender, &id_list(&[2, 1])).unwrap();
    assert_eq!(
        payments,
        vec![Payment { to: addr("GR2"), amount: 2000 }, Payment { to: addr("GR1"), amount: 1000 }]
    );
    assert_eq!(hub.escrows.get(&1).unwrap().status, BatchStatus::Released);
    assert_eq!(hub.escrows.get(&2).unwrap().status, BatchStatus::Released);
}

#[test]
fn conversion_tries_primary_then_secondary_then_cache() {
    let (mut hub, admin) = hub();
    hub.set_cached_rate(&admin, s("USDC"), s("EUR"), 900000, 1000000, 1000).unwrap();
    let quote = |rate: i128, timestamp: u64| CachedRate {
        rate,
        denominator: 1000000,
        timestamp,
        from_asset: s("USDC"),
        to_asset: s("EUR"),
    };

    // Both oracles answer: the primary decides.
    let r = hub
        .convert_currency(
            1000,
            s("USDC"),
            s("EUR"),
            Some(quote(920000, 1000)),
            Some(quote(910000, 1000)),
            1000,
        )
        .unwrap();
    assert_eq!(r.converted_amount, 920);
    // The conversion is cached.
    let pair = gpay_remit::oracle::AssetPair::of(&s("USDC"), &s("EUR"));
    assert_eq!(hub.cached_rates.get(&pair).unwrap().rate, 920000);

    // A stale primary quote: the secondary decides.
    let r = hub
        .convert_currency(
            1000,
            s("USDC"),
            s("EUR"),
            Some(quote(930000, 1)),
            Some(quote(910000, 9000)),
            9000,
        )
        .unwrap();
    assert_eq!(r.converted_amount, 910);

    // Neither answers: the cache decides, within three times the limit.
    let r = hub.convert_currency(1000, s("USDC"), s("EUR"), None, None, 9000 + 3 * 3600).unwrap();
    assert_eq!(r.converted_amount, 910);
    assert_eq!(r.timestamp, 9000);

    // Past that, nothing is left.
    let before = hub.clone();
    let r = hub.convert_currency(1000, s("USDC"), s("EUR"), None, None, 9000 + 3 * 3600 + 1);
    assert_eq!(r, Err(RemittanceError::ConversionFailed));
    assert_eq!(hub, before);
}

#[test]
fn invoice_in_the_settlement_asset_is_not_converted() {
    let (mut hub, _admin) = hub();
    let quote = CachedRate {
        rate: 2,
        denominator: 1,
        timestamp: 1000,
        from_asset: s("USD"),
        to_asset: s("USD"),
    };
    let id = hub
        .generate_invoice(
            addr("GS"),
            addr("GR"),
            1000,
            asset("USD"),
            2000,
            s("d"),
            0,
            s("m"),
            Some(quote),
            1000,
        )
        .unwrap();
    let invoice = hub.get_invoice(id).unwrap();
    assert_eq!(invoice.converted_amount, 1000);
    assert_eq!(invoice.fees, 25);
    assert_eq!(invoice.total_due, 1025);
    assert_eq!(invoice.created_at, 1000);
    assert_eq!(invoice.paid_at, 0);
    assert_eq!(invoice.invoice_id, id);
}

#[test]
fn invoice_whose_conversion_fails_keeps_the_amount() {
    let (mut hub, _admin) = hub();
    let id = hub
        .generate_invoice(
            addr("GS"),
            addr("GR"),
            1000,
            asset("EUR"),
            2000,
            s("d"),
            0,
            s("m"),
            None,
            1000,
        )
        .unwrap();
    assert_eq!(hub.get_invoice(id).unwrap().converted_amount, 1000);
}

#[test]
fn invoice_fee_is_dropped_where_it_cannot_be_computed() {
    let mut hub = RemittanceHubContract::new();
    let id = hub
        .generate_invoice(
            addr("GS"),
            addr("GR"),
            i128::MAX,
            asset("USD"),
            2,
            s("d"),
            0,
            s("m"),
            None,
            1,
        )
        .unwrap();
    let invoice = hub.get_invoice(id).unwrap();
    assert_eq!(invoice.fees, 0);
    assert_eq!(invoice.total_due, i128::MAX);

    // The largest amount on which the fee can be computed.
    let amount = i128::MAX / 250;
    let id = hub
        .generate_invoice(
            addr("GS"),
            addr("GR"),
            amount,
            asset("USD"),
            2,
            s("d"),
            0,
            s("m"),
            None,
            1,
        )
        .unwrap();
    let invoice = hub.get_invoice(id).unwrap();
    assert_eq!(invoice.fees, amount * 250 / 10000);
    assert_eq!(invoice.total_due, amount + invoice.fees);
}

#[test]
fn invoice_refusals() {
    let mut hub = RemittanceHubContract::new();
    let sender = addr("GSENDER");
    let recipient = addr("GRECIPIENT");
    let other = addr("GOTHER");
    let id = invoice_at_1000(&mut hub, &sender, &recipient);

    assert_eq!(hub.mark_invoice_paid(9, &sender, 1), Err(RemittanceError::InvoiceNotFound));
    assert_eq!(hub.mark_invoice_paid(id, &other, 1), Err(RemittanceError::Unauthorized));
    assert_eq!(hub.mark_invoice_overdue(id, 2000), Err(RemittanceError::InvalidInvoiceStatus));
    assert_eq!(hub.cancel_invoice(id, &recipient), Err(RemittanceError::Unauthorized));
    assert_eq!(hub.update_invoice_amount(id, &sender, 0), Err(RemittanceError::InvalidAmount));
    assert_eq!(hub.update_invoice_amount(id, &recipient, 5), Err(RemittanceError::Unauthorized));
    assert_eq!(hub.update_invoice_amount(9, &sender, 5), Err(RemittanceError::InvoiceNotFound));

    hub.mark_invoice_paid(id, &recipient, 1200).unwrap();
    assert_eq!(
        hub.mark_invoice_paid(id, &sender, 1300),
        Err(RemittanceError::InvalidInvoiceStatus)
    );
    assert_eq!(hub.mark_invoice_overdue(id, 2500), Err(RemittanceError::InvalidInvoiceStatus));
    assert_eq!(hub.cancel_invoice(id, &sender), Err(RemittanceError::InvalidInvoiceStatus));
    assert_eq!(
        hub.update_invoice_amount(id, &sender, 5),
        Err(RemittanceError::InvalidInvoiceStatus)
    );
    assert_eq!(hub.get_invoice(id).unwrap().paid_at, 1200);
}

#[test]
fn paused_hub_takes_no_remittance_and_no_invoice() {
    let (mut hub, admin) = hub();
    assert_eq!(hub.version(), 1);
    assert!(!hub.is_paused());
    assert_eq!(hub.pause(&addr("GOTHER")), Err(UpgradeError::Unauthorized));
    assert_eq!(hub.unpause(&admin), Err(UpgradeError::NotPaused));
    hub.pause(&admin).unwrap();
    assert!(hub.is_paused());
    assert_eq!(hub.pause(&admin), Err(UpgradeError::AlreadyPaused));

    assert_eq!(
        hub.send_remittance(addr("GFROM"), addr("GTO"), 5, s("USD"), 1, None, 1),
        Err(RemittanceError::ContractPaused)
    );
    assert_eq!(
        hub.generate_invoice(
            addr("GS"),
            addr("GR"),
            5,
            asset("USD"),
            9,
            s("d"),
            0,
            s("m"),
            None,
            1,
        ),
        Err(RemittanceError::ContractPaused)
    );

    hub.unpause(&admin).unwrap();
    let id = hub.send_remittance(addr("GFROM"), addr("GTO"), 5, s("USD"), 17, None, 1).unwrap();
    assert_eq!(id, 17);

    assert_eq!(hub.upgrade(&addr("GOTHER")), Err(UpgradeError::Unauthorized));
    hub.upgrade(&admin).unwrap();
    assert!(hub.is_paused());
    assert_eq!(hub.version(), 2);
    assert_eq!(hub.migrate(&addr("GOTHER")), Err(UpgradeError::Unauthorized));
    assert_eq!(hub.migrate(&admin), Ok(2));
    assert!(!hub.is_paused());
}

#[test]
fn remittance_refusals() {
    let mut hub = RemittanceHubContract::new();
    assert_eq!(
        hub.send_remittance(addr("GFROM"), addr("GTO"), 0, s("USD"), 1, None, 1),
        Err(RemittanceError::InvalidAmount)
    );
    assert_eq!(hub.complete_remittance(1), Err(RemittanceError::NotFound));
    let id = hub.send_remittance(addr("GFROM"), addr("GTO"), 9, s("USD"), 1, None, 1).unwrap();
    hub.complete_remittance(id).unwrap();
    assert_eq!(hub.complete_remittance(id), Err(RemittanceError::InvalidStatus));
    let remittance = hub.get_remittance(id).unwrap();
    assert_eq!(remittance.from, addr("GFROM"));
    assert_eq!(remittance.to, addr("GTO"));
    assert_eq!(remittance.amount, 9);
    assert_eq!(remittance.currency, s("USD"));
}

#[test]
fn batch_item_that_is_no_number_names_no_escrow() {
    let mut hub = RemittanceHubContract::new();
    let sender = addr("GSENDER");
    hub.batch_create_escrows(&sender, vec![request(&addr("GR1"), 1000, 9)], 1).unwrap();

    let env = soroban_sdk::Env::default();
    let mut texts: soroban_sdk::Vec<soroban_sdk::String> = soroban_sdk::Vec::new(&env);
    texts.push_back(soroban_sdk::String::from_str(&env, "1"));
    // The same host object, taken for a list of numbers.
    let ids: soroban_sdk::Vec<u64> =
        soroban_sdk::TryFromVal::try_from_val(&env, texts.as_val()).unwrap();
    assert_eq!(hub.batch_deposit(&sender, &ids), Err(RemittanceError::NotFound));
}

#[test]
fn only_an_oracle_quote_is_cached() {
    let (mut hub, admin) = hub();
    let fresh = hub.clone();

    // Between equal assets no oracle is asked and nothing is cached.
    let r = hub.convert_currency(5000, s("USDC"), s("USDC"), None, None, 1000).unwrap();
    assert_eq!(r.converted_amount, 5000);
    assert_eq!(hub, fresh);
    let quote = CachedRate {
        rate: 2,
        denominator: 1,
        timestamp: 1000,
        from_asset: s("USDC"),
        to_asset: s("USDC"),
    };
    let r = hub
        .convert_currency(5000, s("USDC"), s("USDC"), Some(quote.clone()), Some(quote), 1000)
        .unwrap();
    assert_eq!(r.converted_amount, 5000);
    assert_eq!(hub, fresh);

    // A conversion by the cached rate leaves the cache as it was.
    hub.set_cached_rate(&admin, s("USDC"), s("EUR"), 900000, 1000000, 1000).unwrap();
    let cached = hub.clone();
    let r = hub.convert_currency(1000, s("USDC"), s("EUR"), None, None, 2000).unwrap();
    assert_eq!(r.converted_amount, 900);
    assert_eq!(r.timestamp, 1000);
    assert_eq!(hub, cached);

    // A conversion by the secondary oracle's quote is cached with its time.
    let quote = CachedRate {
        rate: 910000,
        denominator: 1000000,
        timestamp: 1900,
        from_asset: s("USDC"),
        to_asset: s("EUR"),
    };
    let r = hub.convert_currency(1000, s("USDC"), s("EUR"), None, Some(quote), 2000).unwrap();
    assert_eq!(r.converted_amount, 910);
    let pair = gpay_remit::oracle::AssetPair::of(&s("USDC"), &s("EUR"));
    assert_eq!(
        hub.cached_rates.get(&pair),
        Some(&CachedRate {
            rate: 910000,
            denominator: 1000000,
            timestamp: 2000,
            from_asset: s("USDC"),
            to_asset: s("EUR"),
        })
    );
}
