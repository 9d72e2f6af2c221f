use gpay_remit::address::{Address, Asset};
use gpay_remit::conditions::{ConditionOperator, ConditionType};
use gpay_remit::error::Error;
use gpay_remit::escrow::{EscrowStatus, RefundReason};
use gpay_remit::payment_escrow::PaymentEscrowContract;

fn addr(name: &str) -> Address {
    Address::from_str(name)
}

fn usdc(issuer: &Address) -> Asset {
    Asset { code: String::from("USDC"), issuer: issuer.clone() }
}

struct Parties {
    admin: Address,
    sender: Address,
    recipient: Address,
}

fn parties() -> Parties {
    Parties { admin: addr("GADMIN"), sender: addr("GSENDER"), recipient: addr("GRECIPIENT") }
}

/// A contract under `admin` that supports USDC issued by `admin`, with one
/// escrow of 1000 from sender to recipient that expires at 2000, created at
/// 1000.
fn contract_with_escrow(p: &Parties, memo: &str) -> (PaymentEscrowContract, u64) {
    let mut contract = PaymentEscrowContract::initialize(p.admin.clone());
    let asset = usdc(&p.admin);
    contract.add_supported_asset(&p.admin, asset.clone());
    let escrow_id = contract
        .create_escrow(
            p.sender.clone(),
            p.recipient.clone(),
            1000,
            asset,
            2000,
            String::from(memo),
            None,
            None,
            1000,
        )
        .unwrap();
    (contract, escrow_id)
}

#[test]
fn test_initialize() {
    let admin = addr("GADMIN");
    let contract = PaymentEscrowContract::initialize(admin.clone());
    assert_eq!(contract.admin, admin);
    assert_eq!(contract.escrow_counter, 0);
    assert_eq!(contract.get_platform_fee(), 0);
    assert_eq!(contract.get_processing_fee(), 0);
    assert!(!contract.reentrancy_guard);
    assert!(!contract.kyc_enabled);
}

#[test]
fn test_create_escrow() {
    let admin = addr("GADMIN");
    let sender = addr("GSENDER");
    let recipient = addr("GRECIPIENT");
    let issuer = addr("GISSUER");

    let mut contract = PaymentEscrowContract::initialize(admin.clone());
    let asset = Asset { code: String::from("USDC"), issuer: issuer.clone() };
    contract.add_supported_asset(&admin, asset.clone());

    let escrow_id = contract
        .create_escrow(
            sender.clone(),
            recipient.clone(),
            1000,
            asset,
            2000,
            String::from("Payment for services"),
            None,
            None,
            1000,
        )
        .unwrap();
    assert_eq!(escrow_id, 1);

    let escrow = contract.get_escrow(escrow_id);
    assert!(escrow.is_some());

    let escrow_data = escrow.unwrap();
    assert_eq!(escrow_data.amount, 1000);
    assert_eq!(escrow_data.deposited_amount, 0);
    assert_eq!(escrow_data.released_amount, 0);
    assert_eq!(escrow_data.refunded_amount, 0);
    assert_eq!(escrow_data.sender, sender);
    assert_eq!(escrow_data.recipient, recipient);
    assert_eq!(escrow_data.status, EscrowStatus::Pending);
    assert_eq!(escrow_data.created_at, 1000);
    assert_eq!(escrow_data.allow_partial_release, false);
}

#[test]
fn test_deposit_full_amount() {
    let p = parties();
    let (mut contract, escrow_id) = contract_with_escrow(&p, "Test payment");

    contract.deposit(escrow_id, &p.sender, 1000, 1000).unwrap();

    let escrow = contract.get_escrow(escrow_id).unwrap();
    assert_eq!(escrow.deposited_amount, 1000);
    assert_eq!(escrow.status, EscrowStatus::Funded);
    assert_eq!(escrow.last_deposit_at, 1000);
}

#[test]
fn test_deposit_partial_amounts() {
    let p = parties();
    let (mut contract, escrow_id) = contract_with_escrow(&p, "Test payment");

    contract.deposit(escrow_id, &p.sender, 400, 1000).unwrap();
    let escrow = contract.get_escrow(escrow_id).unwrap();
    assert_eq!(escrow.deposited_amount, 400);
    assert_eq!(escrow.status, EscrowStatus::Pending);

    contract.deposit(escrow_id, &p.sender, 600, 1000).unwrap();
    let escrow = contract.get_escrow(escrow_id).unwrap();
    assert_eq!(escrow.deposited_amount, 1000);
    assert_eq!(escrow.status, EscrowStatus::Funded);
}

#[test]
fn payment_escrow_test_deposit_wrong_sender() {
    let p = parties();
    let wrong_sender = addr("GWRONG");
    let (mut contract, escrow_id) = contract_with_escrow(&p, "Test");

    let result = contract.deposit(escrow_id, &wrong_sender, 1000, 0);
    assert_eq!(result, Err(Error::WrongSender));
}

#[test]
fn test_deposit_exceeds_amount() {
    let p = parties();
    let (mut contract, escrow_id) = contract_with_escrow(&p, "Test");

    let result = contract.deposit(escrow_id, &p.sender, 1500, 0);
    assert_eq!(result, Err(Error::InsufficientAmount));
}

#[test]
fn test_approve_and_release_with_deposit() {
    let p = parties();
    let (mut contract, escrow_id) = contract_with_escrow(&p, "Test");

    contract.deposit(escrow_id, &p.sender, 1000, 1000).unwrap();

    contract.approve_escrow(escrow_id).unwrap();
    let escrow = contract.get_escrow(escrow_id).unwrap();
    assert_eq!(escrow.status, EscrowStatus::Approved);

    let payout = contract.release_escrow(escrow_id, &p.recipient, 1000).unwrap();

    let escrow = contract.get_escrow(escrow_id).unwrap();
    assert_eq!(escrow.status, EscrowStatus::Released);

    assert_eq!(payout.beneficiary, p.recipient);
    assert_eq!(payout.amount, 1000);
}

#[test]
fn test_refund_after_expiration() {
    let p = parties();
    let (mut contract, escrow_id) = contract_with_escrow(&p, "Test");

    contract.deposit(escrow_id, &p.sender, 1000, 1000).unwrap();

    let payout = contract
        .refund_escrow(escrow_id, &p.sender, RefundReason::Expiration, 2500)
        .unwrap();

    let escrow = contract.get_escrow(escrow_id).unwrap();
    assert_eq!(escrow.status, EscrowStatus::Refunded);
    assert_eq!(escrow.refunded_amount, 1000);

    assert_eq!(payout.beneficiary, p.sender);
    assert_eq!(payout.amount, 1000);
}

#[test]
fn test_set_platform_fee() {
    let admin = addr("GADMIN");
    let mut contract = PaymentEscrowContract::initialize(admin.clone());

    contract.set_platform_fee(&admin, 250).unwrap();

    let fee = contract.get_platform_fee();
    assert_eq!(fee, 250);
}

#[test]
fn test_release_with_fee() {
    let p = parties();
    let (mut contract, escrow_id) = contract_with_escrow(&p, "Test");
    contract.set_platform_fee(&p.admin, 250).unwrap();

    contract.deposit(escrow_id, &p.sender, 1000, 1000).unwrap();
    contract.approve_escrow(escrow_id).unwrap();

    let payout = contract.release_escrow(escrow_id, &p.recipient, 1000).unwrap();

    let escrow = contract.get_escrow(escrow_id).unwrap();
    assert_eq!(escrow.status, EscrowStatus::Released);
    assert_eq!(escrow.released_amount, 1000);

    let fee = 1000 * 250 / 10000;
    assert_eq!(payout.beneficiary, p.recipient);
    assert_eq!(payout.amount, 1000 - fee);
    assert_eq!(payout.fee_collector, p.admin);
    assert_eq!(payout.fee, fee);
}

#[test]
fn test_partial_release() {
    let p = parties();
    let (mut contract, escrow_id) = contract_with_escrow(&p, "Test");

    contract.deposit(escrow_id, &p.sender, 1000, 1000).unwrap();
    contract.approve_escrow(escrow_id).unwrap();
    contract.enable_partial_release(escrow_id, &p.sender).unwrap();

    let payout = contract.release_partial(escrow_id, &p.recipient, 400, 1000).unwrap();

    let escrow = contract.get_escrow(escrow_id).unwrap();
    assert_eq!(escrow.released_amount, 400);
    assert_eq!(escrow.status, EscrowStatus::Approved);

    assert_eq!(payout.beneficiary, p.recipient);
    assert_eq!(payout.amount, 400);

    contract.release_partial(escrow_id, &p.recipient, 600, 1000).unwrap();

    let escrow = contract.get_escrow(escrow_id).unwrap();
    assert_eq!(escrow.released_amount, 1000);
    assert_eq!(escrow.status, EscrowStatus::Released);
}

#[test]
fn test_release_unauthorized_caller() {
    let p = parties();
    let unauthorized = addr("GUNAUTHORIZED");
    let (mut contract, escrow_id) = contract_with_escrow(&p, "Test");

    contract.deposit(escrow_id, &p.sender, 1000, 1000).unwrap();
    contract.approve_escrow(escrow_id).unwrap();

    let result = contract.release_escrow(escrow_id, &unauthorized, 1000);
    assert_eq!(result, Err(Error::UnauthorizedCaller));
}

#[test]
fn test_refund_with_processing_fee() {
    let p = parties();
    let (mut contract, escrow_id) = contract_with_escrow(&p, "Test");
    contract.set_processing_fee(&p.admin, 100).unwrap();

    contract.deposit(escrow_id, &p.sender, 1000, 1000).unwrap();

    let payout = contract
        .refund_escrow(escrow_id, &p.sender, RefundReason::Expiration, 2500)
        .unwrap();

    let escrow = contract.get_escrow(escrow_id).unwrap();
    assert_eq!(escrow.status, EscrowStatus::Refunded);
    assert_eq!(escrow.refunded_amount, 1000);

    let fee = 1000 * 100 / 10000;
    assert_eq!(payout.beneficiary, p.sender);
    assert_eq!(payout.amount, 1000 - fee);
    assert_eq!(payout.fee_collector, p.admin);
    assert_eq!(payout.fee, fee);
}

#[test]
fn test_refund_by_admin() {
    let p = parties();
    let (mut contract, escrow_id) = contract_with_escrow(&p, "Test");

    contract.deposit(escrow_id, &p.sender, 1000, 1000).unwrap();

    let payout = contract
        .refund_escrow(escrow_id, &p.admin, RefundReason::AdminAction, 1000)
        .unwrap();

    let escrow = contract.get_escrow(escrow_id).unwrap();
    assert_eq!(escrow.status, EscrowStatus::Refunded);

    assert_eq!(payout.beneficiary, p.sender);
    assert_eq!(payout.amount, 1000);
}

#[test]
fn test_partial_refund() {
    let p = parties();
    let (mut contract, escrow_id) = contract_with_escrow(&p, "Test");

    contract.deposit(escrow_id, &p.sender, 1000, 1000).unwrap();

    let payout = contract
        .refund_partial(escrow_id, &p.sender, 400, RefundReason::Dispute, 1000)
        .unwrap();

    let escrow = contract.get_escrow(escrow_id).unwrap();
    assert_eq!(escrow.refunded_amount, 400);

    assert_eq!(payout.beneficiary, p.sender);
    assert_eq!(payout.amount, 400);

    contract.refund_partial(escrow_id, &p.sender, 600, RefundReason::Dispute, 1000).unwrap();

    let escrow = contract.get_escrow(escrow_id).unwrap();
    assert_eq!(escrow.refunded_amount, 1000);
    assert_eq!(escrow.status, EscrowStatus::Refunded);
}

#[test]
fn test_refund_unauthorized() {
    let p = parties();
    let unauthorized = addr("GUNAUTHORIZED");
    let (mut contract, escrow_id) = contract_with_escrow(&p, "Test");

    contract.deposit(escrow_id, &p.sender, 1000, 1000).unwrap();

    let result = contract.refund_escrow(escrow_id, &unauthorized, RefundReason::Expiration, 2500);
    assert_eq!(result, Err(Error::UnauthorizedRefund));
}

#[test]
fn test_refund_already_released() {
    let p = parties();
    let (mut contract, escrow_id) = contract_with_escrow(&p, "Test");

    contract.deposit(escrow_id, &p.sender, 1000, 1000).unwrap();
    contract.approve_escrow(escrow_id).unwrap();
    contract.release_escrow(escrow_id, &p.recipient, 1000).unwrap();

    let result = contract.refund_escrow(escrow_id, &p.sender, RefundReason::Expiration, 1000);
    assert_eq!(result, Err(Error::AlreadyReleased));
}

#[test]
fn test_add_condition() {
    let p = parties();
    let (mut contract, escrow_id) = contract_with_escrow(&p, "Test");

    contract.add_condition(escrow_id, &p.sender, ConditionType::OraclePrice, true, 100).unwrap();

    let escrow = contract.get_escrow(escrow_id).unwrap();
    assert_eq!(escrow.release_conditions.conditions.len(), 1);
}

#[test]
fn test_verify_conditions_timestamp() {
    let p = parties();
    let (mut contract, escrow_id) = contract_with_escrow(&p, "Test");

    contract.add_condition(escrow_id, &p.sender, ConditionType::Timestamp, true, 0).unwrap();

    let result = contract.verify_conditions(escrow_id, 0, 2500).unwrap();
    assert_eq!(result.all_passed, true);
}

#[test]
fn test_verify_conditions_approval() {
    let p = parties();
    let (mut contract, escrow_id) = contract_with_escrow(&p, "Test");

    contract.add_condition(escrow_id, &p.sender, ConditionType::Approval, true, 0).unwrap();
    contract.set_min_approvals(escrow_id, &p.sender, 2).unwrap();

    contract.add_approval(escrow_id, &p.admin).unwrap();
    contract.add_approval(escrow_id, &p.recipient).unwrap();

    let result = contract.verify_conditions(escrow_id, 0, 0).unwrap();
    assert_eq!(result.all_passed, true);
}

#[test]
fn test_verify_conditions_oracle_price() {
    let p = parties();
    let (mut contract, escrow_id) = contract_with_escrow(&p, "Test");

    contract.add_condition(escrow_id, &p.sender, ConditionType::OraclePrice, true, 100).unwrap();

    let result = contract.verify_conditions(escrow_id, 150, 0).unwrap();
    assert_eq!(result.all_passed, true);

    let result_fail = contract.verify_conditions(escrow_id, 50, 0).unwrap();
    assert_eq!(result_fail.all_passed, false);
}

#[test]
fn test_verify_conditions_and_operator() {
    let p = parties();
    let (mut contract, escrow_id) = contract_with_escrow(&p, "Test");

    contract.add_condition(escrow_id, &p.sender, ConditionType::Timestamp, true, 0).unwrap();
    contract.add_condition(escrow_id, &p.sender, ConditionType::OraclePrice, true, 100).unwrap();
    contract.set_condition_operator(escrow_id, &p.sender, ConditionOperator::And).unwrap();

    let result = contract.verify_conditions(escrow_id, 150, 2500).unwrap();
    assert_eq!(result.all_passed, true);
}

#[test]
fn test_verify_conditions_or_operator() {
    let p = parties();
    let (mut contract, escrow_id) = contract_with_escrow(&p, "Test");

    contract.add_condition(escrow_id, &p.sender, ConditionType::Timestamp, true, 0).unwrap();
    contract.add_condition(escrow_id, &p.sender, ConditionType::OraclePrice, true, 100).unwrap();
    contract.set_condition_operator(escrow_id, &p.sender, ConditionOperator::Or).unwrap();

    let result = contract.verify_conditions(escrow_id, 150, 1000).unwrap();
    assert_eq!(result.all_passed, true);
}

#[test]
fn test_multi_signature_approval() {
    let p = parties();
    let (mut contract, escrow_id) = contract_with_escrow(&p, "Test");

    contract.set_min_approvals(escrow_id, &p.sender, 3).unwrap();

    contract.add_approval(escrow_id, &p.admin).unwrap();
    contract.add_approval(escrow_id, &p.sender).unwrap();
    contract.add_approval(escrow_id, &p.recipient).unwrap();

    let escrow = contract.get_escrow(escrow_id).unwrap();
    assert_eq!(escrow.release_conditions.current_approvals, 3);
}

#[test]
fn test_calculate_fees() {
    let admin = addr("GADMIN");
    let mut contract = PaymentEscrowContract::initialize(admin.clone());

    contract.set_platform_fee(&admin, 250).unwrap();
    contract.set_forex_fee(&admin, 100).unwrap();
    contract.set_compliance_fee(&admin, 10).unwrap();

    let breakdown = contract.get_fee_breakdown(1000).unwrap();

    let expected_platform = 1000 * 250 / 10000;
    let expected_forex = 1000 * 100 / 10000;
    let expected_compliance = 10;
    let expected_total = expected_platform + expected_forex + expected_compliance;

    assert_eq!(breakdown.platform_fee, expected_platform);
    assert_eq!(breakdown.forex_fee, expected_forex);
    assert_eq!(breakdown.compliance_fee, expected_compliance);
    assert_eq!(breakdown.total_fee, expected_total);
}

#[test]
fn test_fee_limits() {
    let admin = addr("GADMIN");
    let mut contract = PaymentEscrowContract::initialize(admin.clone());

    contract.set_platform_fee(&admin, 100).unwrap();
    contract.set_fee_limits(&admin, 50, 200).unwrap();

    let breakdown_low = contract.get_fee_breakdown(100).unwrap();
    assert_eq!(breakdown_low.total_fee, 50);

    let breakdown_high = contract.get_fee_breakdown(100000).unwrap();
    assert_eq!(breakdown_high.total_fee, 200);
}

#[test]
fn test_set_fee_wallet() {
    let admin = addr("GADMIN");
    let fee_wallet = addr("GFEEWALLET");
    let mut contract = PaymentEscrowContract::initialize(admin.clone());

    contract.set_fee_wallet(&admin, fee_wallet.clone()).unwrap();

    let stored_wallet = contract.get_fee_wallet();
    assert!(stored_wallet.is_some());
    assert_eq!(*stored_wallet.unwrap(), fee_wallet);
}

#[test]
fn test_fee_exceeds_amount() {
    let admin = addr("GADMIN");
    let mut contract = PaymentEscrowContract::initialize(admin.clone());

    contract.set_platform_fee(&admin, 9000).unwrap();
    contract.set_forex_fee(&admin, 2000).unwrap();

    let result = contract.get_fee_breakdown(1000);
    assert_eq!(result, Err(Error::FeeExceedsAmount));
}

#[test]
fn test_forex_fee_configuration() {
    let admin = addr("GADMIN");
    let mut contract = PaymentEscrowContract::initialize(admin.clone());

    contract.set_forex_fee(&admin, 150).unwrap();

    let breakdown = contract.get_fee_breakdown(1000).unwrap();
    let expected_forex = 1000 * 150 / 10000;
    assert_eq!(breakdown.forex_fee, expected_forex);
}

#[test]
fn test_compliance_flat_fee() {
    let admin = addr("GADMIN");
    let mut contract = PaymentEscrowContract::initialize(admin.clone());

    contract.set_compliance_fee(&admin, 25).unwrap();

    let breakdown = contract.get_fee_breakdown(1000).unwrap();
    assert_eq!(breakdown.compliance_fee, 25);
}
