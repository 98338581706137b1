use mithaq::token::{AzmanToken, TokenError, DEVELOPER_SHARE, PROPOSAL_PENALTY_AMOUNT, SAFETY_FUND_SHARE};

const ADMIN: u64 = 1;
const MITHAQ: u64 = 2;
const GOV: u64 = 3;
const FUND: u64 = 4;
const ALICE: u64 = 10;
const BOB: u64 = 11;
const CAROL: u64 = 12;

fn token() -> AzmanToken {
    let mut t = AzmanToken::new();
    assert_eq!(t.initialize_token(ADMIN, MITHAQ, GOV, FUND, 1_000_000), Ok(()));
    t
}

#[test]
fn initialize_sets_treasury_and_defaults() {
    let t = token();
    assert_eq!(t.balance(ADMIN), 1_000_000);
    assert_eq!(t.total_supply(), 0);
    assert_eq!(t.get_treasury(), Some(ADMIN));
    assert_eq!(t.get_safety_fund(), Some(FUND));
    assert_eq!(t.get_mithaq_contract(), Some(MITHAQ));
    assert_eq!(t.get_token_admin(), Some(ADMIN));
    assert_eq!(t.get_governance_contract(), Some(GOV));
    assert_eq!(t.get_fee_rates(), (100, 100));
}

#[test]
fn token_initialize_twice_is_refused() {
    let mut t = token();
    assert_eq!(t.initialize_token(ALICE, MITHAQ, GOV, FUND, 5), Err(TokenError::AlreadyInitialized));
    assert_eq!(t.balance(ALICE), 0);
    assert_eq!(t.get_token_admin(), Some(ADMIN));
}

#[test]
fn metadata() {
    assert_eq!(AzmanToken::name(), "Azman");
    assert_eq!(AzmanToken::symbol(), "AZM");
    assert_eq!(AzmanToken::decimals(), 7);
}

#[test]
fn uninitialized_token_reads_defaults() {
    let t = AzmanToken::new();
    assert_eq!(t.total_supply(), 0);
    assert_eq!(t.balance(ALICE), 0);
    assert_eq!(t.get_treasury(), None);
    assert_eq!(t.get_fee_rates(), (100, 100));
}

#[test]
fn transfer_moves_amount() {
    let mut t = token();
    assert_eq!(t.transfer(ADMIN, ALICE, 300), Ok(()));
    assert_eq!(t.balance(ADMIN), 999_700);
    assert_eq!(t.balance(ALICE), 300);
    // the sum of the two balances is kept
    assert_eq!(t.balance(ADMIN) + t.balance(ALICE), 1_000_000);
    assert_eq!(t.balance(BOB), 0);
}

#[test]
fn transfer_errors_leave_balances() {
    let mut t = token();
    assert_eq!(t.transfer(ADMIN, ALICE, 0), Err(TokenError::AmountNotPositive));
    assert_eq!(t.transfer(ADMIN, ALICE, -5), Err(TokenError::AmountNotPositive));
    assert_eq!(t.transfer(ADMIN, ADMIN, 5), Err(TokenError::SelfTransfer));
    assert_eq!(t.transfer(ALICE, BOB, 1), Err(TokenError::InsufficientBalance));
    assert_eq!(t.balance(ADMIN), 1_000_000);
    t.balances.insert(BOB, i128::MAX);
    assert_eq!(t.transfer(ADMIN, BOB, 1), Err(TokenError::Overflow));
    assert_eq!(t.balance(ADMIN), 1_000_000);
    assert_eq!(t.balance(BOB), i128::MAX);
}

#[test]
fn approve_reads_back_until_expiry() {
    let mut t = token();
    assert_eq!(t.approve(ADMIN, ALICE, 500, 100, 10), Ok(()));
    assert_eq!(t.allowance(ADMIN, ALICE, 10), 500);
    assert_eq!(t.allowance(ADMIN, ALICE, 99), 500);
    assert_eq!(t.allowance(ADMIN, ALICE, 100), 0);
    // other pairs are untouched
    assert_eq!(t.allowance(ALICE, ADMIN, 10), 0);
    assert_eq!(t.allowance(ADMIN, BOB, 10), 0);
}

#[test]
fn approve_errors() {
    let mut t = token();
    assert_eq!(t.approve(ADMIN, ALICE, -1, 100, 10), Err(TokenError::NegativeAmount));
    assert_eq!(t.approve(ADMIN, ALICE, 1, 10, 10), Err(TokenError::ExpirationInPast));
    assert_eq!(t.allowance(ADMIN, ALICE, 0), 0);
}

#[test]
fn transfer_from_draws_on_allowance() {
    let mut t = token();
    t.approve(ADMIN, ALICE, 500, 100, 10).unwrap();
    assert_eq!(t.transfer_from(ALICE, ADMIN, BOB, 200, 20), Ok(()));
    assert_eq!(t.allowance(ADMIN, ALICE, 20), 300);
    assert_eq!(t.balance(BOB), 200);
    assert_eq!(t.balance(ADMIN), 999_800);
}

#[test]
fn transfer_from_errors() {
    let mut t = token();
    assert_eq!(t.transfer_from(ALICE, ADMIN, BOB, 0, 20), Err(TokenError::AmountNotPositive));
    assert_eq!(t.transfer_from(ALICE, ADMIN, ADMIN, 5, 20), Err(TokenError::SelfTransfer));
    assert_eq!(t.transfer_from(ALICE, ADMIN, BOB, 5, 20), Err(TokenError::NoAllowance));
    t.approve(ADMIN, ALICE, 500, 100, 10).unwrap();
    assert_eq!(t.transfer_from(ALICE, ADMIN, BOB, 5, 100), Err(TokenError::AllowanceExpired));
    assert_eq!(t.transfer_from(ALICE, ADMIN, BOB, 501, 20), Err(TokenError::InsufficientAllowance));
    t.approve(BOB, ALICE, 500, 100, 10).unwrap();
    assert_eq!(t.transfer_from(ALICE, BOB, CAROL, 5, 20), Err(TokenError::InsufficientBalance));
    // a refused delegated transfer does not consume the allowance
    assert_eq!(t.allowance(BOB, ALICE, 20), 500);
}

#[test]
fn release_from_treasury_grows_supply() {
    let mut t = token();
    assert_eq!(t.release_from_treasury(MITHAQ, ALICE, 1000), Ok(()));
    assert_eq!(t.balance(ALICE), 1000);
    assert_eq!(t.balance(ADMIN), 999_000);
    assert_eq!(t.total_supply(), 1000);
    assert_eq!(t.release_from_treasury(ADMIN, ALICE, 1), Ok(()));
    assert_eq!(t.total_supply(), 1001);
}

#[test]
fn release_from_treasury_errors() {
    let mut t = token();
    assert_eq!(t.release_from_treasury(ALICE, BOB, 10), Err(TokenError::Unauthorized));
    assert_eq!(t.release_from_treasury(ADMIN, BOB, 0), Err(TokenError::AmountNotPositive));
    assert_eq!(
        t.release_from_treasury(ADMIN, BOB, 1_000_001),
        Err(TokenError::InsufficientTreasuryBalance)
    );
    let mut empty = AzmanToken::new();
    assert_eq!(empty.release_from_treasury(ADMIN, BOB, 10), Err(TokenError::NotInitialized));
    assert_eq!(t.total_supply(), 0);
}

#[test]
fn release_to_treasury_itself_keeps_its_balance() {
    let mut t = token();
    assert_eq!(t.release_from_treasury(ADMIN, ADMIN, 10), Ok(()));
    assert_eq!(t.balance(ADMIN), 1_000_000);
    assert_eq!(t.total_supply(), 10);
}

#[test]
fn seize_for_governance_moves_to_governance() {
    let mut t = token();
    t.transfer(ADMIN, ALICE, 100).unwrap();
    assert_eq!(t.seize_for_governance(GOV, ALICE, 40), Ok(()));
    assert_eq!(t.balance(ALICE), 60);
    assert_eq!(t.balance(GOV), 40);
    assert_eq!(t.seize_for_governance(ALICE, ALICE, 1), Err(TokenError::Unauthorized));
    assert_eq!(t.seize_for_governance(GOV, ALICE, 0), Err(TokenError::AmountNotPositive));
    assert_eq!(t.seize_for_governance(GOV, ALICE, 61), Err(TokenError::InsufficientBalance));
    let mut empty = AzmanToken::new();
    assert_eq!(empty.seize_for_governance(GOV, ALICE, 1), Err(TokenError::GovernanceNotSet));
}

#[test]
fn contract_fees_split_between_treasury_and_fund() {
    let mut t = token();
    t.transfer(ADMIN, ALICE, 1000).unwrap();
    assert_eq!(t.process_contract_fees(MITHAQ, ALICE, 10_000), Ok(Some((100, 100))));
    assert_eq!(t.balance(ALICE), 800);
    assert_eq!(t.balance(ADMIN), 999_000 + 100);
    assert_eq!(t.balance(FUND), 100);
    assert_eq!(t.total_supply(), -100);
    // what the payer paid is what the treasury and the fund received
    assert_eq!(t.balance(ALICE) + t.balance(ADMIN) + t.balance(FUND), 1_000_000);
}

#[test]
fn contract_fees_rounding_and_zero() {
    let mut t = token();
    t.transfer(ADMIN, ALICE, 1000).unwrap();
    // 99 * 100 / 10000 rounds to zero: nothing is charged
    assert_eq!(t.process_contract_fees(MITHAQ, ALICE, 99), Ok(None));
    assert_eq!(t.balance(ALICE), 1000);
    // 150 * 100 / 10000 = 1 each
    assert_eq!(t.process_contract_fees(MITHAQ, ALICE, 150), Ok(Some((1, 1))));
    assert_eq!(t.balance(ALICE), 998);
}

#[test]
fn contract_fees_errors() {
    let mut t = token();
    assert_eq!(t.process_contract_fees(ALICE, BOB, 10_000), Err(TokenError::Unauthorized));
    assert_eq!(
        t.process_contract_fees(MITHAQ, BOB, 10_000),
        Err(TokenError::InsufficientFeeBalance)
    );
    assert_eq!(t.process_contract_fees(MITHAQ, BOB, i128::MAX), Err(TokenError::Overflow));
    let mut empty = AzmanToken::new();
    assert_eq!(empty.process_contract_fees(MITHAQ, BOB, 10_000), Err(TokenError::NotInitialized));
}

#[test]
fn contract_fees_at_custom_rates() {
    let mut t = token();
    assert_eq!(t.set_fee_rates(ADMIN, 250, 0), Ok(()));
    t.transfer(ADMIN, ALICE, 1000).unwrap();
    assert_eq!(t.process_contract_fees(MITHAQ, ALICE, 10_000), Ok(Some((250, 0))));
    assert_eq!(t.balance(ALICE), 750);
    assert_eq!(t.balance(FUND), 0);
}

#[test]
fn failed_proposal_penalty_mints_shares() {
    let mut t = token();
    assert_eq!(t.process_failed_proposal_penalty(MITHAQ, ALICE), Ok(()));
    assert_eq!(t.balance(ALICE), DEVELOPER_SHARE);
    assert_eq!(t.balance(FUND), SAFETY_FUND_SHARE);
    assert_eq!(t.total_supply(), PROPOSAL_PENALTY_AMOUNT);
    assert_eq!(t.process_failed_proposal_penalty(ALICE, ALICE), Err(TokenError::Unauthorized));
}

#[test]
fn claim_from_safety_fund_pays_out() {
    let mut t = token();
    t.transfer(ADMIN, FUND, 500).unwrap();
    assert_eq!(t.claim_from_safety_fund(MITHAQ, ALICE, 200), Ok(()));
    assert_eq!(t.balance(FUND), 300);
    assert_eq!(t.balance(ALICE), 200);
    assert_eq!(t.claim_from_safety_fund(MITHAQ, ALICE, 301), Err(TokenError::InsufficientSafetyFund));
    assert_eq!(t.claim_from_safety_fund(MITHAQ, ALICE, 0), Err(TokenError::AmountNotPositive));
    assert_eq!(t.claim_from_safety_fund(BOB, ALICE, 1), Err(TokenError::Unauthorized));
}

#[test]
fn burn_reduces_balance_and_supply() {
    let mut t = token();
    t.release_from_treasury(ADMIN, ALICE, 100).unwrap();
    assert_eq!(t.burn(ALICE, 30), Ok(()));
    assert_eq!(t.balance(ALICE), 70);
    assert_eq!(t.total_supply(), 70);
    assert_eq!(t.burn(ALICE, 0), Err(TokenError::AmountNotPositive));
    assert_eq!(t.burn(ALICE, 71), Err(TokenError::InsufficientBalance));
    assert_eq!(t.burn(ADMIN, 71), Err(TokenError::BurnExceedsSupply));
    assert_eq!(t.balance(ADMIN), 999_900);
}

#[test]
fn token_admin_updates() {
    let mut t = token();
    assert_eq!(t.update_mithaq_contract(ALICE, BOB), Err(TokenError::Unauthorized));
    assert_eq!(t.update_mithaq_contract(ADMIN, BOB), Ok(()));
    assert_eq!(t.get_mithaq_contract(), Some(BOB));
    assert_eq!(t.set_governance_contract(ADMIN, CAROL), Ok(()));
    assert_eq!(t.get_governance_contract(), Some(CAROL));
    assert_eq!(t.update_admin(ADMIN, ALICE), Ok(()));
    assert_eq!(t.get_token_admin(), Some(ALICE));
    assert_eq!(t.update_admin(ADMIN, BOB), Err(TokenError::Unauthorized));
    let mut empty = AzmanToken::new();
    assert_eq!(empty.update_admin(ADMIN, BOB), Err(TokenError::NotInitialized));
}

#[test]
fn fee_rate_bounds() {
    let mut t = token();
    assert_eq!(t.set_fee_rates(ADMIN, -1, 0), Err(TokenError::NegativeRate));
    assert_eq!(t.set_fee_rates(ADMIN, 0, 1001), Err(TokenError::RateTooHigh));
    assert_eq!(t.set_fee_rates(BOB, 0, 0), Err(TokenError::Unauthorized));
    assert_eq!(t.set_fee_rates(ADMIN, 1000, 0), Ok(()));
    assert_eq!(t.get_fee_rates(), (1000, 0));
}
