use mithaq::common::Movement;
use mithaq::escrow::{
    CommitmentParams, CommitmentStatus, ContractType, DisputeStatus, EscrowCall, MithaqContract,
    MithaqError, PaymentStatus, Penalty,
};
use mithaq::liquidity::{FeesRecycled, LiquidityContributed, LiquidityWithdrawn, PoolEvent};

const ADMIN: u64 = 1;
/// SHA-256 of the big-endian bytes of commitment id 1.
const CERT_ID_1: [u8; 32] = [
    205, 38, 98, 21, 78, 109, 118, 178, 178, 185, 46, 112, 192, 202, 195, 204, 245, 52, 249, 183,
    78, 181, 184, 152, 25, 236, 80, 144, 131, 208, 10, 80,
];
/// SHA-256 of the big-endian bytes of commitment id 2.
const CERT_ID_2: [u8; 32] = [
    205, 4, 164, 117, 68, 152, 224, 109, 181, 161, 60, 95, 55, 31, 31, 4, 255, 109, 36, 112, 242,
    74, 169, 189, 136, 101, 64, 229, 220, 231, 127, 112,
];
const PI: u64 = 2;
const TOKEN: u64 = 3;
const REGISTRY: u64 = 4;
const CREATOR: u64 = 10;
const CP: u64 = 11;
const STRANGER: u64 = 12;
const NOW: u64 = 1_000_000;

fn contract() -> MithaqContract {
    let mut s = MithaqContract::new();
    assert_eq!(s.initialize(ADMIN, PI, TOKEN, REGISTRY, NOW), Ok(()));
    s
}

fn params(kind: &[u8], net: i128, down: i128) -> CommitmentParams {
    CommitmentParams {
        original_value: net,
        net_value: net,
        down_payment: down,
        contract_type: kind.to_vec(),
        deadline: NOW + 1000,
        pi_payment_id: b"pay-1".to_vec(),
        first_release_amount: net - net / 4,
        second_release_amount: net / 4,
        legal_doc_hash: b"DOC".to_vec(),
    }
}

fn env() -> soroban_sdk::Env {
    soroban_sdk::Env::default()
}

fn accepted(kind: &[u8], net: i128) -> MithaqContract {
    let mut s = contract();
    assert_eq!(s.create_commitment(CREATOR, CP, params(kind, net, net), NOW), Ok(1));
    s.accept_commitment(1, CP, &b"DOC".to_vec(), NOW + 1).unwrap();
    s
}

#[test]
fn tier_limits() {
    assert_eq!(MithaqContract::get_reputation_tier_limit(100), 95);
    assert_eq!(MithaqContract::get_reputation_tier_limit(95), 95);
    assert_eq!(MithaqContract::get_reputation_tier_limit(94), 75);
    assert_eq!(MithaqContract::get_reputation_tier_limit(90), 75);
    assert_eq!(MithaqContract::get_reputation_tier_limit(89), 50);
    assert_eq!(MithaqContract::get_reputation_tier_limit(80), 50);
    assert_eq!(MithaqContract::get_reputation_tier_limit(79), 0);
    assert_eq!(MithaqContract::get_reputation_tier_limit(-5), 0);
}

#[test]
fn dynamic_fees_follow_reputation_and_pool() {
    let mut s = contract();
    assert_eq!(s.calculate_dynamic_fees(CREATOR, NOW), (4, 1));
    s.reputation.insert(CREATOR, 50);
    assert_eq!(s.calculate_dynamic_fees(CREATOR, NOW), (2, 1));
    s.reputation.insert(CREATOR, 100);
    assert_eq!(s.calculate_dynamic_fees(CREATOR, NOW), (1, 1));
    s.pool.metrics.as_mut().unwrap().pool_utilization = 10;
    assert_eq!(s.calculate_dynamic_fees(CREATOR, NOW), (6, 1));
    s.pool.metrics.as_mut().unwrap().pool_utilization = 90;
    assert_eq!(s.calculate_dynamic_fees(CREATOR, NOW), (0, 1));
    s.reputation.insert(CREATOR, 0);
    assert_eq!(s.calculate_dynamic_fees(CREATOR, NOW), (0, 1));
}

#[test]
fn escrow_initialize_twice_is_refused() {
    let mut s = contract();
    assert_eq!(s.initialize(STRANGER, PI, TOKEN, REGISTRY, NOW), Err(MithaqError::AlreadyInitialized));
    assert_eq!(s.get_contract_admin(), Some(ADMIN));
    assert_eq!(s.get_contract_counter(), 0);
    assert_eq!(s.get_dispute_counter(), 0);
    let pool = s.get_liquidity_pool(NOW + 5);
    assert_eq!(pool.pool_utilization, 50);
    assert_eq!(pool.last_updated, NOW);
    assert_eq!(s.get_total_available_liquidity(NOW), 0);
    assert_eq!(s.get_mithaq_forfeiture_split(), (50, 40, 10));
}

#[test]
fn create_records_terms_and_fees() {
    let mut s = contract();
    assert_eq!(s.create_commitment(CREATOR, CP, params(b"SALE", 1000, 1000), NOW), Ok(1));
    let c = s.get_commitment_pub(1).unwrap();
    assert_eq!(c.status, CommitmentStatus::Pending);
    assert_eq!(c.platform_fee_percent, 4);
    assert_eq!(c.insurance_fee_percent, 1);
    assert!(matches!(c.contract_type, ContractType::Other(_)));
    assert!(matches!(c.payment_status, PaymentStatus::Pending));
    assert_eq!(c.escrow_balance, 0);
    assert_eq!(s.get_contract_counter(), 1);
    assert_eq!(s.create_commitment(CREATOR, CP, params(b"CONS", 1000, 1000), NOW), Ok(2));
    assert!(matches!(s.get_commitment_pub(2).unwrap().contract_type, ContractType::Construction));
}

#[test]
fn create_errors() {
    let mut s = contract();
    assert_eq!(s.create_commitment(CREATOR, CP, params(b"SALE", 0, 0), NOW), Err(MithaqError::NetValueNotPositive));
    assert_eq!(s.create_commitment(CREATOR, CP, params(b"SALE", 100, 101), NOW), Err(MithaqError::InvalidDownPayment));
    assert_eq!(s.create_commitment(CREATOR, CP, params(b"SALE", 100, -1), NOW), Err(MithaqError::InvalidDownPayment));
    assert_eq!(s.create_commitment(CREATOR, CREATOR, params(b"SALE", 100, 100), NOW), Err(MithaqError::SelfDealing));
    let mut p = params(b"SALE", 100, 100);
    p.second_release_amount = 1;
    assert_eq!(s.create_commitment(CREATOR, CP, p, NOW), Err(MithaqError::AmountsMismatch));
    let mut p = params(b"SALE", 100, 100);
    p.first_release_amount = i128::MAX;
    p.second_release_amount = 1;
    assert_eq!(s.create_commitment(CREATOR, CP, p, NOW), Err(MithaqError::Overflow));
    assert_eq!(
        s.create_commitment(CREATOR, CP, params(b"SALE", 100, 100), NOW + 1000),
        Err(MithaqError::DeadlineNotInFuture)
    );
    assert_eq!(
        s.create_commitment(CREATOR, CP, params(b"SALE", 100, 50), NOW),
        Err(MithaqError::FullDownPaymentRequired)
    );
    let mut none = MithaqContract::new();
    assert_eq!(none.create_commitment(CREATOR, CP, params(b"SALE", 100, 100), NOW), Err(MithaqError::PiServerNotSet));
    assert_eq!(s.get_contract_counter(), 0);
}

#[test]
fn reputation_lending_tiers() {
    let mut s = contract();
    assert_eq!(s.create_commitment(CREATOR, CP, params(b"REPL", 1000, 500), NOW), Err(MithaqError::ReputationTooLow));
    s.reputation.insert(CREATOR, 85);
    assert_eq!(s.create_commitment(CREATOR, CP, params(b"REPL", 1000, 400), NOW), Err(MithaqError::LtvExceedsTier));
    assert_eq!(s.create_commitment(CREATOR, CP, params(b"REPL", 1000, 500), NOW), Ok(1));
    s.reputation.insert(CREATOR, 96);
    assert_eq!(s.create_commitment(CREATOR, CP, params(b"REPL", 1000, 50), NOW), Ok(2));
    assert!(matches!(s.get_commitment_pub(2).unwrap().contract_type, ContractType::ReputationLending));
}

#[test]
fn acceptance_escrows_and_pools() {
    let mut s = contract();
    s.create_commitment(CREATOR, CP, params(b"SALE", 1000, 1000), NOW).unwrap();
    let settled = s.accept_commitment(1, CP, &b"DOC".to_vec(), NOW + 1).unwrap();
    assert_eq!(settled.calls, vec![EscrowCall::Transfer(Movement::ToContract { token: TOKEN, from: CP, amount: 1000 })]);
    assert_eq!(
        settled.pool_events,
        vec![PoolEvent::Contributed(LiquidityContributed { contract_id: 1, amount: 300, total_pooled: 300 })]
    );
    assert_eq!(settled.event.escrowed_amount, 1000);
    let c = s.get_commitment_pub(1).unwrap();
    assert_eq!(c.status, CommitmentStatus::Active);
    assert_eq!(c.escrow_balance, 1000);
    assert!(c.contributes_to_pool);
    assert_eq!(c.liquidity_contribution, 300);
    assert_eq!(c.accepted_at, NOW + 1);
    let pool = s.get_liquidity_pool(NOW + 1);
    assert_eq!(pool.total_pooled, 300);
    assert_eq!(pool.active_contributors, 1);
    assert_eq!(pool.pool_utilization, 50);
    assert_eq!(s.get_total_escrow_balance(), Some(1000));
}

#[test]
fn second_acceptance_sets_utilization() {
    let mut s = accepted(b"SALE", 1000);
    s.create_commitment(CREATOR, CP, params(b"SALE", 1000, 1000), NOW).unwrap();
    s.accept_commitment(2, CP, &b"DOC".to_vec(), NOW + 2).unwrap();
    let pool = s.get_liquidity_pool(NOW + 2);
    assert_eq!(pool.total_pooled, 600);
    assert_eq!(pool.pool_utilization, 60);
    assert_eq!(s.get_total_escrow_balance(), Some(2000));
}

#[test]
fn acceptance_errors() {
    let mut s = contract();
    assert_eq!(s.accept_commitment(1, CP, &b"DOC".to_vec(), NOW).err(), Some(MithaqError::CommitmentNotFound));
    s.create_commitment(CREATOR, CP, params(b"SALE", 1000, 1000), NOW).unwrap();
    assert_eq!(s.accept_commitment(1, CP, &b"DOC".to_vec(), NOW + 1001).err(), Some(MithaqError::OfferExpired));
    assert_eq!(s.accept_commitment(1, CP, &b"FAKE".to_vec(), NOW).err(), Some(MithaqError::LegalHashMismatch));
    assert_eq!(s.accept_commitment(1, STRANGER, &b"DOC".to_vec(), NOW).err(), Some(MithaqError::NotCounterparty));
    s.config.azman_token = None;
    assert_eq!(s.accept_commitment(1, CP, &b"DOC".to_vec(), NOW).err(), Some(MithaqError::TokenNotSet));
    s.config.azman_token = Some(TOKEN);
    s.accept_commitment(1, CP, &b"DOC".to_vec(), NOW).unwrap();
    assert_eq!(s.accept_commitment(1, CP, &b"DOC".to_vec(), NOW).err(), Some(MithaqError::NotPending));
}

#[test]
fn full_lifecycle_with_review() {
    let mut s = accepted(b"SALE", 1000);
    assert_eq!(s.confirm_delivery(1, CP, b"BIO".to_vec(), NOW + 2), Ok(750));
    let c = s.get_commitment_pub(1).unwrap();
    assert_eq!(c.status, CommitmentStatus::AwaitingReview);
    assert_eq!(c.review_deadline, NOW + 2 + 259_200);
    assert_eq!(c.auto_release_deadline, NOW + 2 + 259_200 + 172_800);
    assert_eq!(c.extra_data.delivery_proof_hash, Some(b"BIO".to_vec()));
    let done = s.confirm_review(&env(), 1, CP, NOW + 3).unwrap();
    assert_eq!(
        done.calls,
        vec![
            EscrowCall::IssueCertificate {
                registry: REGISTRY,
                certificate_id: CERT_ID_1,
                holder: CREATOR,
                counterparty: CP,
                imprint: *b"Mithaq Verified",
            },
            EscrowCall::Transfer(Movement::FromContract { token: TOKEN, to: CREATOR, amount: 1000 }),
            EscrowCall::ChargeFees { token: TOKEN, payer: CREATOR, total_amount: 1000 },
        ]
    );
    assert_eq!(
        done.pool_events,
        vec![
            PoolEvent::Recycled(FeesRecycled { amount: 20, recycle_end: NOW + 3 + 604_800 }),
            PoolEvent::Withdrawn(LiquidityWithdrawn { contract_id: 1, amount: 300, total_pooled: 20 }),
        ]
    );
    assert_eq!((done.event.final_payout, done.event.fees_paid), (1000, 40));
    let c = s.get_commitment_pub(1).unwrap();
    assert_eq!(c.status, CommitmentStatus::Completed);
    assert_eq!(c.escrow_balance, 0);
    assert_eq!(s.get_reputation(CREATOR), 2);
    assert_eq!(s.get_reputation(CP), 2);
    let pool = s.get_liquidity_pool(NOW + 3);
    assert_eq!(pool.total_pooled, 20);
    assert_eq!(pool.total_recycled_fees, 20);
    assert_eq!(pool.active_contributors, 0);
    // a settled contract is final
    assert_eq!(s.confirm_review(&env(), 1, CP, NOW + 4).err(), Some(MithaqError::NotInReview));
    assert_eq!(s.auto_release(1, u64::MAX).err(), Some(MithaqError::NotInReview));
    assert_eq!(s.open_dispute(1, CP, NOW + 4), Err(MithaqError::IneligibleForDispute));
    assert_eq!(s.get_total_escrow_balance(), Some(0));
}

#[test]
fn recycled_fees_leave_pool_after_a_week() {
    let mut s = accepted(b"SALE", 1000);
    s.confirm_delivery(1, CP, b"BIO".to_vec(), NOW + 2).unwrap();
    s.confirm_review(&env(), 1, CP, NOW + 3).unwrap();
    // a second contract completes after the recycling period: the old batch is released
    s.create_commitment(CREATOR, CP, params(b"SALE", 1000, 1000), NOW).unwrap();
    let later = NOW + 3 + 604_800;
    s.accept_commitment(2, CP, &b"DOC".to_vec(), NOW + 4).unwrap();
    s.confirm_delivery(2, CP, b"BIO".to_vec(), NOW + 5).unwrap();
    let second = s.confirm_review(&env(), 2, CP, later).unwrap();
    match second.calls[0] {
        EscrowCall::IssueCertificate { certificate_id, .. } => assert_eq!(certificate_id, CERT_ID_2),
        _ => panic!("expected the certificate first"),
    }
    let pool = s.get_liquidity_pool(later);
    // 20 + 300 pooled, 20 released, 20 recycled, 300 withdrawn
    assert_eq!(pool.total_pooled, 20);
    assert_eq!(pool.total_recycled_fees, 20);
    assert_eq!(s.pool.recycled.unwrap().recycle_end, later + 604_800);
}

#[test]
fn delivery_errors() {
    let mut s = accepted(b"SALE", 1000);
    assert_eq!(s.confirm_delivery(2, CP, b"x".to_vec(), NOW), Err(MithaqError::CommitmentNotFound));
    assert_eq!(s.confirm_delivery(1, CREATOR, b"x".to_vec(), NOW), Err(MithaqError::NotCounterparty));
    assert_eq!(s.confirm_delivery(1, CP, b"x".to_vec(), u64::MAX), Err(MithaqError::Overflow));
    s.confirm_delivery(1, CP, b"x".to_vec(), NOW).unwrap();
    assert_eq!(s.confirm_delivery(1, CP, b"x".to_vec(), NOW), Err(MithaqError::NotActive));
    s.commitments.get_mut(&1).unwrap().status = CommitmentStatus::Active;
    assert_eq!(s.confirm_delivery(1, CP, b"x".to_vec(), NOW), Err(MithaqError::AlreadyReleased));
}

#[test]
fn review_needs_registry() {
    let mut s = accepted(b"SALE", 1000);
    s.confirm_delivery(1, CP, b"BIO".to_vec(), NOW + 2).unwrap();
    assert_eq!(s.confirm_review(&env(), 1, CREATOR, NOW + 3).err(), Some(MithaqError::NotCounterparty));
    s.config.certificate_registry = None;
    assert_eq!(s.confirm_review(&env(), 1, CP, NOW + 3).err(), Some(MithaqError::RegistryNotSet));
    assert_eq!(s.get_reputation(CREATOR), 0);
    assert_eq!(s.get_commitment_pub(1).unwrap().escrow_balance, 1000);
}

#[test]
fn automatic_release_after_grace_period() {
    let mut s = accepted(b"SALE", 1000);
    s.confirm_delivery(1, CP, b"BIO".to_vec(), NOW + 2).unwrap();
    let deadline = NOW + 2 + 259_200 + 172_800;
    assert_eq!(s.auto_release(1, deadline - 1).err(), Some(MithaqError::GracePeriodActive));
    let released = s.auto_release(1, deadline).unwrap();
    assert_eq!(released.event.payout, 1000);
    assert_eq!(
        released.calls,
        vec![
            EscrowCall::Transfer(Movement::FromContract { token: TOKEN, to: CREATOR, amount: 1000 }),
            EscrowCall::ChargeFees { token: TOKEN, payer: CREATOR, total_amount: 1000 },
        ]
    );
    // the escrow was still counted when the pool was settled: 320 * 100 / 1000, then 20 * 100 / 1000
    assert_eq!(
        released.pool_events,
        vec![
            PoolEvent::Recycled(FeesRecycled { amount: 20, recycle_end: deadline + 604_800 }),
            PoolEvent::Withdrawn(LiquidityWithdrawn { contract_id: 1, amount: 300, total_pooled: 20 }),
        ]
    );
    assert_eq!(s.get_liquidity_pool(deadline).pool_utilization, 2);
    assert_eq!(s.get_commitment_pub(1).unwrap().status, CommitmentStatus::AutoReleased);
    assert_eq!(s.get_reputation(CP), 0);
    assert_eq!(s.get_reputation(CREATOR), 2);
}

#[test]
fn cancellation_rules() {
    let mut s = contract();
    s.create_commitment(CREATOR, CP, params(b"SALE", 1000, 1000), NOW).unwrap();
    let pending = s.cancel_commitment(1, CREATOR, &b"ANY".to_vec(), NOW).unwrap();
    assert!(pending.calls.is_empty());
    assert_eq!(pending.event.refunded, 0);
    assert_eq!(s.get_commitment_pub(1).unwrap().status, CommitmentStatus::Cancelled);

    let mut s = accepted(b"SALE", 1000);
    assert_eq!(s.cancel_commitment(1, CREATOR, &b"ANY".to_vec(), NOW).err(), Some(MithaqError::ConsentRequired));
    assert_eq!(s.cancel_commitment(1, STRANGER, &b"MUTUAL".to_vec(), NOW).err(), Some(MithaqError::NotAParty));
    let refund = s.cancel_commitment(1, CREATOR, &b"FORCE_MAJ".to_vec(), NOW + 5).unwrap();
    assert_eq!(refund.calls, vec![EscrowCall::Transfer(Movement::FromContract { token: TOKEN, to: CP, amount: 1000 })]);
    assert_eq!(
        refund.pool_events,
        vec![PoolEvent::Withdrawn(LiquidityWithdrawn { contract_id: 1, amount: 300, total_pooled: 0 })]
    );
    let c = s.get_commitment_pub(1).unwrap();
    assert_eq!(c.status, CommitmentStatus::Cancelled);
    assert_eq!(c.escrow_balance, 0);
    assert!(!c.contributes_to_pool);
    assert_eq!(s.get_total_available_liquidity(NOW + 5), 0);
}

#[test]
fn payment_status_updates() {
    let mut s = contract();
    s.create_commitment(CREATOR, CP, params(b"SALE", 1000, 1000), NOW).unwrap();
    assert_eq!(s.update_payment_status(1, b"PAID".to_vec()), Ok(()));
    assert!(matches!(s.get_commitment_pub(1).unwrap().payment_status, PaymentStatus::Other(_)));
    assert_eq!(s.get_commitment_pub(1).unwrap().status, CommitmentStatus::Pending);
    assert_eq!(s.update_payment_status(1, b"CANC".to_vec()), Ok(()));
    assert!(matches!(s.get_commitment_pub(1).unwrap().payment_status, PaymentStatus::Cancelled));
    assert_eq!(s.get_commitment_pub(1).unwrap().status, CommitmentStatus::Cancelled);
    assert_eq!(s.update_payment_status(2, b"CANC".to_vec()), Err(MithaqError::CommitmentNotFound));
    let mut none = MithaqContract::new();
    assert_eq!(none.update_payment_status(1, b"CANC".to_vec()), Err(MithaqError::PiServerNotSet));
}

#[test]
fn disputes_are_arbitrated_once() {
    let mut s = accepted(b"SALE", 1000);
    s.reputation.insert(CREATOR, 30);
    assert_eq!(s.open_dispute(1, STRANGER, NOW), Err(MithaqError::NotAParty));
    assert_eq!(s.open_dispute(1, CREATOR, NOW + 5), Ok(1));
    let d = s.get_dispute(1).unwrap();
    assert_eq!(d.plaintiff, CREATOR);
    assert_eq!(d.defendant, CP);
    assert_eq!(d.status, DisputeStatus::Open);
    assert!(matches!(d.penalty, Penalty::Pending));
    assert_eq!(s.get_commitment_pub(1).unwrap().status, CommitmentStatus::Disputed);
    assert_eq!(s.get_dispute_counter(), 1);
    let settled = s.resolve_dispute(1, CP, b"FRAU".to_vec(), NOW + 6).unwrap();
    assert_eq!(settled.event, 1000);
    assert_eq!(settled.calls, vec![EscrowCall::Transfer(Movement::FromContract { token: TOKEN, to: CP, amount: 1000 })]);
    assert_eq!(s.get_reputation(CREATOR), 20);
    assert_eq!(s.get_reputation(CP), 2);
    let d = s.get_dispute(1).unwrap();
    assert_eq!(d.status, DisputeStatus::Arbitrated);
    assert!(matches!(d.penalty, Penalty::Fraud));
    assert_eq!(d.resolved_at, NOW + 6);
    let c = s.get_commitment_pub(1).unwrap();
    assert_eq!(c.status, CommitmentStatus::Completed);
    assert_eq!(c.escrow_balance, 0);
    assert_eq!(s.resolve_dispute(1, CP, b"FRAU".to_vec(), NOW + 7).err(), Some(MithaqError::CaseClosed));
    assert_eq!(s.resolve_dispute(2, CP, b"FRAU".to_vec(), NOW + 7).err(), Some(MithaqError::DisputeNotFound));
}

#[test]
fn penalty_kinds() {
    for (symbol, points) in [(&b"BREA"[..], 25), (&b"NEGL"[..], 28), (&b"ODD"[..], 28)] {
        let mut s = accepted(b"SALE", 1000);
        s.reputation.insert(CREATOR, 30);
        s.open_dispute(1, CP, NOW).unwrap();
        s.resolve_dispute(1, CP, symbol.to_vec(), NOW).unwrap();
        assert_eq!(s.get_reputation(CREATOR), points);
    }
    let mut s = accepted(b"SALE", 1000);
    s.open_dispute(1, CP, NOW).unwrap();
    s.config.admin = None;
    assert_eq!(s.resolve_dispute(1, CP, b"FRAU".to_vec(), NOW).err(), Some(MithaqError::AdminNotSet));
}

#[test]
fn construction_milestones() {
    let mut s = accepted(b"CONS", 1000);
    let first = s.release_milestone(1, CP, 1, NOW).unwrap();
    assert_eq!(first.event.amount, 100);
    assert_eq!(first.calls, vec![EscrowCall::Transfer(Movement::FromContract { token: TOKEN, to: CREATOR, amount: 100 })]);
    assert!(first.pool_events.is_empty());
    assert_eq!(s.get_commitment_pub(1).unwrap().escrow_balance, 900);
    assert_eq!(s.release_milestone(1, CP, 1, NOW).err(), Some(MithaqError::MilestoneAlreadyReleased));
    assert_eq!(s.release_milestone(1, CREATOR, 2, NOW).err(), Some(MithaqError::NotCounterparty));
    let last = s.release_milestone(1, CP, 10, NOW).unwrap();
    assert_eq!(last.event.milestone, 10);
    let c = s.get_commitment_pub(1).unwrap();
    assert_eq!(c.status, CommitmentStatus::Completed);
    assert_eq!(c.escrow_balance, 800);
    assert_eq!(c.extra_data.milestone, Some(10));
    assert_eq!(s.get_reputation(CREATOR), 2);
    assert_eq!(s.release_milestone(1, CP, 11, NOW).err(), Some(MithaqError::ContractFrozen));
    let mut other = accepted(b"SALE", 1000);
    assert_eq!(other.release_milestone(1, CP, 1, NOW).err(), Some(MithaqError::NotConstruction));
}

#[test]
fn tuition_installments() {
    let mut s = accepted(b"TUIT", 900);
    let paid = s.pay_installment(1, CP, 1, NOW).unwrap();
    assert_eq!(paid.event.amount, 100);
    assert!(paid.calls.is_empty());
    assert_eq!(s.pay_installment(1, CP, 1, NOW).err(), Some(MithaqError::InstallmentAlreadyPaid));
    assert_eq!(s.pay_installment(1, STRANGER, 2, NOW).err(), Some(MithaqError::NotCounterparty));
    s.pay_installment(1, CP, 9, NOW).unwrap();
    let c = s.get_commitment_pub(1).unwrap();
    assert_eq!(c.status, CommitmentStatus::Completed);
    assert_eq!(c.extra_data.installment, Some(9));
    assert_eq!(c.escrow_balance, 900);
    assert_eq!(s.pay_installment(1, CP, 10, NOW).err(), Some(MithaqError::NotInGoodStanding));
    let mut other = accepted(b"CONS", 900);
    assert_eq!(other.pay_installment(1, CP, 1, NOW).err(), Some(MithaqError::NotTuition));
}
