//! The escrow contract: commitments between a creator and a counterparty, from
//! creation through acceptance (the down payment is escrowed), delivery, review,
//! automatic release, cancellation and disputes, with reputation, credit tiers
//! and the specialized construction and tuition contracts.
use crate::common;
use crate::digest;
use crate::common::{text_matches, texts_equal, AccountId, Movement, Text};
use crate::liquidity;
use crate::liquidity::{pool_state, LiquidityEngine, LiquidityPoolState, PoolEvent};
use vstd::prelude::*;

verus! {

broadcast use vstd::std_specs::hash::group_hash_axioms;

/// Length of the review period after delivery, in seconds.
pub const REVIEW_PERIOD_SECONDS: u64 = 259_200;
/// Grace period after the review period before an automatic release, in seconds.
pub const AUTO_RELEASE_SECONDS: u64 = 172_800;
/// Reputation change for a party found to have committed fraud.
pub const REPUTATION_FRAUD_PENALTY: i128 = -10;
/// Reputation change for a party found in breach.
pub const REPUTATION_BREACH_PENALTY: i128 = -5;
/// Reputation change for neglect.
pub const REPUTATION_NEGLECT_PENALTY: i128 = -2;
/// Reputation change for completing a contract.
pub const REPUTATION_COMPLETION_REWARD: i128 = 2;
/// Reputation needed for the diamond credit tier.
pub const TIER_DIAMOND_REP: i128 = 95;
/// Loan-to-value limit (percent) of the diamond tier.
pub const TIER_DIAMOND_LTV: i128 = 95;
/// Reputation needed for the gold credit tier.
pub const TIER_GOLD_REP: i128 = 90;
/// Loan-to-value limit (percent) of the gold tier.
pub const TIER_GOLD_LTV: i128 = 75;
/// Reputation needed for the silver credit tier.
pub const TIER_SILVER_REP: i128 = 80;
/// Loan-to-value limit (percent) of the silver tier.
pub const TIER_SILVER_LTV: i128 = 50;
/// Percentage of a forfeiture that goes to the platform.
pub const FORFEITURE_PLATFORM_SHARE: i128 = 50;
/// Percentage of a forfeiture that goes to the safety fund.
pub const FORFEITURE_SAFETY_SHARE: i128 = 40;
/// Percentage of a forfeiture that goes to the DAO treasury.
pub const FORFEITURE_DAO_SHARE: i128 = 10;
/// The escrow's share of a forfeited proposal fee, recorded at initialization.
pub const PROPOSAL_FEE_SHARE: i128 = 50_000_000;
/// Milestones of a construction contract; reaching the last completes it.
pub const MILESTONE_COUNT: u32 = 10;
/// Installments of a tuition contract; paying the last completes it.
pub const INSTALLMENT_COUNT: u32 = 9;

/// The largest loan-to-value percentage that a reputation score unlocks.
pub open spec fn tier_limit(rep: int) -> int {
    if rep >= TIER_DIAMOND_REP {
        TIER_DIAMOND_LTV as int
    } else if rep >= TIER_GOLD_REP {
        TIER_GOLD_LTV as int
    } else if rep >= TIER_SILVER_REP {
        TIER_SILVER_LTV as int
    } else {
        0
    }
}

/// The platform and insurance fee percentages for a creator of reputation `rep` when the
/// pool's utilization is `utilization`: trusted creators pay less, new ones more, an
/// under-used pool adds a surcharge and a well-used one a discount (never below zero).
pub open spec fn dynamic_fees(rep: int, utilization: int) -> (int, int) {
    let base: int = if rep >= 100 {
        1
    } else if rep < 20 {
        4
    } else {
        2
    };
    let platform: int = if utilization < liquidity::MIN_POOL_UTILIZATION {
        base + liquidity::LIQUIDITY_SURCHARGE
    } else if utilization > liquidity::MAX_POOL_UTILIZATION {
        if base - liquidity::LIQUIDITY_DISCOUNT > 0 {
            base - liquidity::LIQUIDITY_DISCOUNT
        } else {
            0
        }
    } else {
        base
    };
    (platform, 1)
}

/// Why the escrow contract refused a request. A refused request changes nothing.
#[derive(Clone, Copy, Debug, PartialEq, Eq, Structural)]
pub enum MithaqError {
    AlreadyInitialized,
    AdminNotSet,
    PiServerNotSet,
    TokenNotSet,
    RegistryNotSet,
    NetValueNotPositive,
    InvalidDownPayment,
    SelfDealing,
    AmountsMismatch,
    DeadlineNotInFuture,
    /// Reputation below the silver tier: no credit.
    ReputationTooLow,
    LtvExceedsTier,
    /// A contract without credit needs the whole value as down payment.
    FullDownPaymentRequired,
    CommitmentNotFound,
    NotPending,
    OfferExpired,
    LegalHashMismatch,
    NotCounterparty,
    /// A contract past its offer needs mutual consent or force majeure to be cancelled.
    ConsentRequired,
    NotAParty,
    NotActive,
    AlreadyReleased,
    NotInReview,
    GracePeriodActive,
    IneligibleForDispute,
    DisputeNotFound,
    CaseClosed,
    NotConstruction,
    NotTuition,
    ContractFrozen,
    NotInGoodStanding,
    MilestoneAlreadyReleased,
    InstallmentAlreadyPaid,
    /// A figure would leave its integer range.
    Overflow,
}

} // verus!

verus! {

/// The symbol `CONS` of a construction contract.
pub open spec fn construction_symbol() -> Seq<u8> {
    seq![67u8, 79u8, 78u8, 83u8]
}

/// The symbol `TUIT` of a tuition contract.
pub open spec fn tuition_symbol() -> Seq<u8> {
    seq![84u8, 85u8, 73u8, 84u8]
}

/// The symbol `REPL` of a reputation-backed loan.
pub open spec fn lending_symbol() -> Seq<u8> {
    seq![82u8, 69u8, 80u8, 76u8]
}

/// The symbol `PEND` of a pending payment.
pub open spec fn pending_symbol() -> Seq<u8> {
    seq![80u8, 69u8, 78u8, 68u8]
}

/// The symbol `CANC` of a cancelled payment.
pub open spec fn cancelled_symbol() -> Seq<u8> {
    seq![67u8, 65u8, 78u8, 67u8]
}

/// The symbol `FORCE_MAJ` of a cancellation for force majeure.
pub open spec fn force_majeure_symbol() -> Seq<u8> {
    seq![70u8, 79u8, 82u8, 67u8, 69u8, 95u8, 77u8, 65u8, 74u8]
}

/// The symbol `MUTUAL` of a cancellation by mutual consent.
pub open spec fn mutual_symbol() -> Seq<u8> {
    seq![77u8, 85u8, 84u8, 85u8, 65u8, 76u8]
}

/// The symbol `FRAU` of a fraud penalty.
pub open spec fn fraud_symbol() -> Seq<u8> {
    seq![70u8, 82u8, 65u8, 85u8]
}

/// The symbol `BREA` of a breach penalty.
pub open spec fn breach_symbol() -> Seq<u8> {
    seq![66u8, 82u8, 69u8, 65u8]
}

/// The symbol `NEGL` of a neglect penalty.
pub open spec fn neglect_symbol() -> Seq<u8> {
    seq![78u8, 69u8, 71u8, 76u8]
}

/// The symbol `PENDING` of a penalty not yet decided.
pub open spec fn undecided_symbol() -> Seq<u8> {
    seq![80u8, 69u8, 78u8, 68u8, 73u8, 78u8, 71u8]
}

/// The kind of a contract. `Other` holds any symbol but the three named ones.
pub enum ContractType {
    Construction,
    Tuition,
    ReputationLending,
    Other(Text),
}

/// The state of a payment. `Other` holds any symbol but the two named ones.
pub enum PaymentStatus {
    Pending,
    Cancelled,
    Other(Text),
}

/// The penalty decided in a dispute. `Other` holds any symbol but the named ones.
pub enum Penalty {
    Pending,
    Fraud,
    Breach,
    Neglect,
    Other(Text),
}

/// The kind of contract that a symbol names.
pub open spec fn contract_type_of(t: Text) -> ContractType {
    if t@ == construction_symbol() {
        ContractType::Construction
    } else if t@ == tuition_symbol() {
        ContractType::Tuition
    } else if t@ == lending_symbol() {
        ContractType::ReputationLending
    } else {
        ContractType::Other(t)
    }
}

/// The payment state that a symbol names.
pub open spec fn payment_status_of(t: Text) -> PaymentStatus {
    if t@ == pending_symbol() {
        PaymentStatus::Pending
    } else if t@ == cancelled_symbol() {
        PaymentStatus::Cancelled
    } else {
        PaymentStatus::Other(t)
    }
}

/// The penalty that a symbol names.
pub open spec fn penalty_of(t: Text) -> Penalty {
    if t@ == undecided_symbol() {
        Penalty::Pending
    } else if t@ == fraud_symbol() {
        Penalty::Fraud
    } else if t@ == breach_symbol() {
        Penalty::Breach
    } else if t@ == neglect_symbol() {
        Penalty::Neglect
    } else {
        Penalty::Other(t)
    }
}

/// The reputation change that a penalty carries: fraud and breach have their own, any
/// other penalty counts as neglect.
pub open spec fn penalty_points(p: Penalty) -> int {
    match p {
        Penalty::Fraud => REPUTATION_FRAUD_PENALTY as int,
        Penalty::Breach => REPUTATION_BREACH_PENALTY as int,
        _ => REPUTATION_NEGLECT_PENALTY as int,
    }
}

/// Whether a cancellation reason lets a contract past its offer be cancelled.
pub open spec fn consent_reason(reason: Seq<u8>) -> bool {
    reason == mutual_symbol() || reason == force_majeure_symbol()
}

impl ContractType {
    /// Reads a contract-type symbol.
    pub fn classify(t: Text) -> (r: ContractType)
        ensures
            r == contract_type_of(t),
    {
        let cons: [u8; 4] = [67, 79, 78, 83];
        let tuit: [u8; 4] = [84, 85, 73, 84];
        let repl: [u8; 4] = [82, 69, 80, 76];
        assert(cons@ =~= construction_symbol());
        assert(tuit@ =~= tuition_symbol());
        assert(repl@ =~= lending_symbol());
        if text_matches(&t, &cons) {
            ContractType::Construction
        } else if text_matches(&t, &tuit) {
            ContractType::Tuition
        } else if text_matches(&t, &repl) {
            ContractType::ReputationLending
        } else {
            ContractType::Other(t)
        }
    }
}

impl PaymentStatus {
    /// Reads a payment-status symbol.
    pub fn classify(t: Text) -> (r: PaymentStatus)
        ensures
            r == payment_status_of(t),
    {
        let pend: [u8; 4] = [80, 69, 78, 68];
        let canc: [u8; 4] = [67, 65, 78, 67];
        assert(pend@ =~= pending_symbol());
        assert(canc@ =~= cancelled_symbol());
        if text_matches(&t, &pend) {
            PaymentStatus::Pending
        } else if text_matches(&t, &canc) {
            PaymentStatus::Cancelled
        } else {
            PaymentStatus::Other(t)
        }
    }
}

impl Penalty {
    /// Reads a penalty symbol.
    pub fn classify(t: Text) -> (r: Penalty)
        ensures
            r == penalty_of(t),
    {
        let pending: [u8; 7] = [80, 69, 78, 68, 73, 78, 71];
        let fraud: [u8; 4] = [70, 82, 65, 85];
        let breach: [u8; 4] = [66, 82, 69, 65];
        let neglect: [u8; 4] = [78, 69, 71, 76];
        assert(pending@ =~= undecided_symbol());
        assert(fraud@ =~= fraud_symbol());
        assert(breach@ =~= breach_symbol());
        assert(neglect@ =~= neglect_symbol());
        if text_matches(&t, &pending) {
            Penalty::Pending
        } else if text_matches(&t, &fraud) {
            Penalty::Fraud
        } else if text_matches(&t, &breach) {
            Penalty::Breach
        } else if text_matches(&t, &neglect) {
            Penalty::Neglect
        } else {
            Penalty::Other(t)
        }
    }
}

fn is_consent_reason(reason: &Text) -> (b: bool)
    ensures
        b == consent_reason(reason@),
{
    let mutual: [u8; 6] = [77, 85, 84, 85, 65, 76];
    let force: [u8; 9] = [70, 79, 82, 67, 69, 95, 77, 65, 74];
    assert(mutual@ =~= mutual_symbol());
    assert(force@ =~= force_majeure_symbol());
    text_matches(reason, &mutual) || text_matches(reason, &force)
}

/// Where a commitment stands.
#[derive(Clone, Copy, Debug, PartialEq, Eq, Structural)]
pub enum CommitmentStatus {
    Pending,
    Active,
    Cancelled,
    AwaitingReview,
    Completed,
    AutoReleased,
    Disputed,
}

/// Where a dispute stands.
#[derive(Clone, Copy, Debug, PartialEq, Eq, Structural)]
pub enum DisputeStatus {
    Open,
    Arbitrated,
}

/// What a commitment records besides its terms: the proof of delivery, and the last
/// milestone released or installment paid.
pub struct ExtraData {
    pub delivery_proof_hash: Option<Text>,
    pub milestone: Option<u32>,
    pub installment: Option<u32>,
}

/// A commitment between a creator and a counterparty.
pub struct Commitment {
    pub id: u64,
    pub creator: AccountId,
    pub counterparty: AccountId,
    pub original_value: i128,
    pub net_value: i128,
    pub down_payment: i128,
    pub first_release_amount: i128,
    pub second_release_amount: i128,
    pub contract_type: ContractType,
    pub status: CommitmentStatus,
    pub deadline: u64,
    pub accepted_at: u64,
    pub review_deadline: u64,
    pub auto_release_deadline: u64,
    pub first_release_done: bool,
    pub payment_status: PaymentStatus,
    pub custom_step: u32,
    pub escrow_balance: i128,
    pub platform_fee_percent: i128,
    pub insurance_fee_percent: i128,
    pub legal_doc_hash: Text,
    pub extra_data: ExtraData,
    pub created_at: u64,
    pub contributes_to_pool: bool,
    pub liquidity_contribution: i128,
}

/// A dispute over a commitment.
pub struct Dispute {
    pub id: u64,
    pub contract_id: u64,
    pub plaintiff: AccountId,
    pub defendant: AccountId,
    pub status: DisputeStatus,
    pub penalty: Penalty,
    pub opened_at: u64,
    pub resolved_at: u64,
}

/// The terms a creator proposes.
pub struct CommitmentParams {
    pub original_value: i128,
    pub net_value: i128,
    pub down_payment: i128,
    pub contract_type: Text,
    pub deadline: u64,
    pub pi_payment_id: Text,
    pub first_release_amount: i128,
    pub second_release_amount: i128,
    pub legal_doc_hash: Text,
}

/// Published when a commitment is accepted and its down payment escrowed.
#[derive(Clone, Copy, Debug, PartialEq, Eq, Structural)]
pub struct ContractAccepted {
    pub id: u64,
    pub counterparty: AccountId,
    pub escrowed_amount: i128,
}

/// Published when a commitment is cancelled.
#[derive(Clone, Copy, Debug, PartialEq, Eq, Structural)]
pub struct ContractCancelled {
    pub id: u64,
    pub by: AccountId,
    pub refunded: i128,
}

/// Published when a commitment is completed on review.
#[derive(Clone, Copy, Debug, PartialEq, Eq, Structural)]
pub struct ContractCompleted {
    pub id: u64,
    pub final_payout: i128,
    pub fees_paid: i128,
}

/// Published when the escrow is released without a review.
#[derive(Clone, Copy, Debug, PartialEq, Eq, Structural)]
pub struct AutoReleased {
    pub id: u64,
    pub payout: i128,
}

/// Published when a construction milestone is paid out.
#[derive(Clone, Copy, Debug, PartialEq, Eq, Structural)]
pub struct MilestoneReleased {
    pub id: u64,
    pub milestone: u32,
    pub amount: i128,
}

/// Published when a tuition installment is recorded.
#[derive(Clone, Copy, Debug, PartialEq, Eq, Structural)]
pub struct InstallmentPaid {
    pub id: u64,
    pub installment: u32,
    pub amount: i128,
}

/// Published when a contract is upgraded.
#[derive(Clone, Copy, Debug)]
pub struct ContractUpgraded {
    pub admin: AccountId,
    pub new_wasm_hash: [u8; 32],
}

/// A call that the escrow contract makes on another contract.
#[derive(Clone, Copy, Debug, PartialEq, Eq)]
pub enum EscrowCall {
    /// A token movement.
    Transfer(Movement),
    /// The certificate registry issues a certificate of completion, under `certificate_id`,
    /// to `holder` and `counterparty`, bearing the text `imprint`.
    IssueCertificate {
        registry: AccountId,
        certificate_id: [u8; 32],
        holder: AccountId,
        counterparty: AccountId,
        imprint: [u8; 15],
    },
    /// The token charges its contract fees on `total_amount` to `payer`.
    ChargeFees { token: AccountId, payer: AccountId, total_amount: i128 },
}

/// What an accepted request settles: the calls to make, the pool's events and the
/// request's own event, in this order.
pub struct Settlement<T> {
    pub calls: Vec<EscrowCall>,
    pub pool_events: Vec<PoolEvent>,
    pub event: T,
}

/// The escrow contract's configuration entries, each absent until written.
#[derive(Clone, Copy, Debug, PartialEq, Eq, Structural)]
pub struct EscrowConfig {
    pub admin: Option<AccountId>,
    pub pi_server: Option<AccountId>,
    pub azman_token: Option<AccountId>,
    pub certificate_registry: Option<AccountId>,
    pub contract_counter: Option<u64>,
    pub dispute_counter: Option<u64>,
    pub proposal_fee_share: Option<i128>,
}

/// The whole state of the escrow contract.
pub struct MithaqContract {
    pub config: EscrowConfig,
    pub pool: LiquidityEngine,
    pub commitments: std::collections::HashMap<u64, Commitment>,
    pub disputes: std::collections::HashMap<u64, Dispute>,
    /// Reputation scores; an account without an entry has zero.
    pub reputation: std::collections::HashMap<AccountId, i128>,
}

/// The escrow that a commitment holds while it runs: only active contracts and those
/// awaiting review count.
pub open spec fn counted(c: Commitment) -> int {
    if c.status == CommitmentStatus::Active || c.status == CommitmentStatus::AwaitingReview {
        c.escrow_balance as int
    } else {
        0
    }
}

/// The escrow counted for identifier `k`.
pub open spec fn counted_at(m: Map<u64, Commitment>, k: u64) -> int {
    if m.contains_key(k) {
        counted(m[k])
    } else {
        0
    }
}

/// The escrow of the commitments with identifiers 1 to `n`, added in order: `None` when a
/// partial sum leaves the range of an `i128`.
pub open spec fn escrow_total(m: Map<u64, Commitment>, n: nat) -> Option<i128>
    decreases n,
{
    if n == 0 {
        Some(0)
    } else {
        match escrow_total(m, (n - 1) as nat) {
            None => None,
            Some(t) => if common::fits_i128(t + counted_at(m, n as u64)) {
                Some((t + counted_at(m, n as u64)) as i128)
            } else {
                None
            },
        }
    }
}

/// `m` after `points` are added to `user`'s reputation, which never goes below zero:
/// `None` when the sum leaves the range of an `i128`.
pub open spec fn rep_add(m: Map<AccountId, i128>, user: AccountId, points: int) -> Option<
    Map<AccountId, i128>,
> {
    let s = common::bal(m, user) + points;
    if !common::fits_i128(s) {
        None
    } else {
        Some(
            m.insert(
                user,
                if s > 0 {
                    s as i128
                } else {
                    0
                },
            ),
        )
    }
}

/// `m` after `pa` points for `a` and then `pb` points for `b`.
pub open spec fn rep_add_two(
    m: Map<AccountId, i128>,
    a: AccountId,
    pa: int,
    b: AccountId,
    pb: int,
) -> Option<Map<AccountId, i128>> {
    match rep_add(m, a, pa) {
        None => None,
        Some(m1) => rep_add(m1, b, pb),
    }
}

/// The big-endian bytes of `n`.
pub open spec fn be_bytes(n: u64) -> Seq<u8> {
    seq![
        (n >> 56u64) as u8,
        (n >> 48u64) as u8,
        (n >> 40u64) as u8,
        (n >> 32u64) as u8,
        (n >> 24u64) as u8,
        (n >> 16u64) as u8,
        (n >> 8u64) as u8,
        n as u8,
    ]
}

/// Computes the big-endian bytes of `n`.
fn be_bytes_of(n: u64) -> (b: [u8; 8])
    ensures
        b@ == be_bytes(n),
{
    let b: [u8; 8] = [
        (n >> 56u64) as u8,
        (n >> 48u64) as u8,
        (n >> 40u64) as u8,
        (n >> 32u64) as u8,
        (n >> 24u64) as u8,
        (n >> 16u64) as u8,
        (n >> 8u64) as u8,
        n as u8,
    ];
    assert(b@ =~= be_bytes(n));
    b
}

/// The identifier of the certificate issued for commitment `contract_id`: the SHA-256
/// digest of the commitment's identifier in big-endian bytes.
pub open spec fn certificate_id_for(contract_id: u64) -> [u8; 32] {
    choose|a: [u8; 32]| a@ == digest::sha256_of(be_bytes(contract_id))
}

/// The text `Mithaq Verified` that a certificate of completion bears.
pub open spec fn imprint_text() -> Seq<u8> {
    seq![77u8, 105u8, 116u8, 104u8, 97u8, 113u8, 32u8, 86u8, 101u8, 114u8, 105u8, 102u8, 105u8, 101u8, 100u8]
}

/// The imprint of a certificate of completion, as the call carries it.
pub open spec fn certificate_imprint() -> [u8; 15] {
    choose|a: [u8; 15]| a@ == imprint_text()
}

/// The movement of a payment out of the contract, made only when the amount is positive.
pub open spec fn payment(token: AccountId, to: AccountId, amount: i128) -> Seq<EscrowCall> {
    if amount > 0 {
        seq![EscrowCall::Transfer(Movement::FromContract { token, to, amount })]
    } else {
        Seq::empty()
    }
}

} // verus!

verus! {

impl MithaqContract {
    /// The commitment with identifier `id`, if any.
    pub open spec fn commitment(&self, id: u64) -> Option<Commitment> {
        if self.commitments@.contains_key(id) {
            Some(self.commitments@[id])
        } else {
            None
        }
    }

    /// The dispute with identifier `id`, if any.
    pub open spec fn dispute(&self, id: u64) -> Option<Dispute> {
        if self.disputes@.contains_key(id) {
            Some(self.disputes@[id])
        } else {
            None
        }
    }

    /// The number of commitments created so far.
    pub open spec fn counter(&self) -> nat {
        match self.config.contract_counter {
            Some(c) => c as nat,
            None => 0,
        }
    }

    /// The number of disputes opened so far.
    pub open spec fn disputes_opened(&self) -> nat {
        match self.config.dispute_counter {
            Some(c) => c as nat,
            None => 0,
        }
    }

    /// The reputation of `user`.
    pub open spec fn reputation_of(&self, user: AccountId) -> int {
        common::bal(self.reputation@, user)
    }

    /// The escrow held by the running contracts when the stored commitments are `m`.
    pub open spec fn escrow_with(&self, m: Map<u64, Commitment>) -> Option<i128> {
        escrow_total(m, self.counter())
    }

    /// The escrow held by the running contracts.
    pub open spec fn total_escrow(&self) -> Option<i128> {
        self.escrow_with(self.commitments@)
    }

    /// The pool's utilization at time `now`.
    pub open spec fn utilization(&self, now: u64) -> int {
        liquidity::pool_or_default(self.pool.metrics, now).pool_utilization as int
    }

    /// An escrow contract whose storage holds nothing yet.
    pub fn new() -> (s: MithaqContract)
        ensures
            s.config == (EscrowConfig {
                admin: None,
                pi_server: None,
                azman_token: None,
                certificate_registry: None,
                contract_counter: None,
                dispute_counter: None,
                proposal_fee_share: None,
            }),
            s.pool == (LiquidityEngine { metrics: None, recycled: None }),
            s.commitments@ == Map::<u64, Commitment>::empty(),
            s.disputes@ == Map::<u64, Dispute>::empty(),
            s.reputation@ == Map::<AccountId, i128>::empty(),
    {
        MithaqContract {
            config: EscrowConfig {
                admin: None,
                pi_server: None,
                azman_token: None,
                certificate_registry: None,
                contract_counter: None,
                dispute_counter: None,
                proposal_fee_share: None,
            },
            pool: LiquidityEngine { metrics: None, recycled: None },
            commitments: std::collections::HashMap::new(),
            disputes: std::collections::HashMap::new(),
            reputation: std::collections::HashMap::new(),
        }
    }

    /// Sets up the contract: its admin, the payment server, the token, the certificate
    /// registry, zeroed counters and a neutral empty pool at time `now`.
    pub fn initialize(
        &mut self,
        admin: AccountId,
        pi_server: AccountId,
        azman_token: AccountId,
        cert_registry: AccountId,
        now: u64,
    ) -> (res: Result<(), MithaqError>)
        ensures
            old(self).config.admin is Some ==> res == Err::<(), MithaqError>(
                MithaqError::AlreadyInitialized,
            ) && *final(self) == *old(self),
            old(self).config.admin is None ==> {
                &&& res == Ok::<(), MithaqError>(())
                &&& final(self).config == (EscrowConfig {
                    admin: Some(admin),
                    pi_server: Some(pi_server),
                    azman_token: Some(azman_token),
                    certificate_registry: Some(cert_registry),
                    contract_counter: Some(0),
                    dispute_counter: Some(0),
                    proposal_fee_share: Some(PROPOSAL_FEE_SHARE),
                })
                &&& final(self).pool == (LiquidityEngine {
                    metrics: Some(
                        LiquidityPoolState {
                            total_pooled: 0,
                            total_recycled_fees: 0,
                            active_contributors: 0,
                            pool_utilization: liquidity::NEUTRAL_UTILIZATION,
                            last_updated: now,
                        },
                    ),
                    ..old(self).pool
                })
                &&& final(self).commitments@ == old(self).commitments@
                &&& final(self).disputes@ == old(self).disputes@
                &&& final(self).reputation@ == old(self).reputation@
            },
    {
        if self.config.admin.is_some() {
            return Err(MithaqError::AlreadyInitialized);
        }
        self.config = EscrowConfig {
            admin: Some(admin),
            pi_server: Some(pi_server),
            azman_token: Some(azman_token),
            certificate_registry: Some(cert_registry),
            contract_counter: Some(0),
            dispute_counter: Some(0),
            proposal_fee_share: Some(PROPOSAL_FEE_SHARE),
        };
        self.pool.metrics = Some(
            LiquidityPoolState {
                total_pooled: 0,
                total_recycled_fees: 0,
                active_contributors: 0,
                pool_utilization: liquidity::NEUTRAL_UTILIZATION,
                last_updated: now,
            },
        );
        Ok(())
    }

    fn get_reputation_internal(&self, user: AccountId) -> (r: i128)
        ensures
            r as int == self.reputation_of(user),
    {
        match self.reputation.get(&user) {
            Some(v) => *v,
            None => 0,
        }
    }

    /// The new reputation of `user` after `points`, in a map where it is `current`.
    fn add_reputation(current: i128, points: i128) -> (r: Option<i128>)
        requires
            -10 <= points <= 10,
        ensures
            match r {
                None => !common::fits_i128(current + points),
                Some(v) => common::fits_i128(current + points) && v == if current + points > 0 {
                    current + points
                } else {
                    0
                },
            },
    {
        match current.checked_add(points) {
            None => None,
            Some(s) => Some(
                if s > 0 {
                    s
                } else {
                    0
                },
            ),
        }
    }

    /// Reputation entries after `pa` points for `a` and then `pb` points for `b`.
    fn plan_reputation(&self, a: AccountId, pa: i128, b: AccountId, pb: i128) -> (r: Option<
        (i128, i128),
    >)
        requires
            -10 <= pa <= 10,
            -10 <= pb <= 10,
        ensures
            match rep_add_two(self.reputation@, a, pa as int, b, pb as int) {
                None => r is None,
                Some(m) => r is Some && m == self.reputation@.insert(a, r.unwrap().0).insert(
                    b,
                    r.unwrap().1,
                ),
            },
    {
        let ra = match Self::add_reputation(self.get_reputation_internal(a), pa) {
            Some(v) => v,
            None => {
                return None;
            },
        };
        let current_b = if b == a {
            ra
        } else {
            self.get_reputation_internal(b)
        };
        let rb = match Self::add_reputation(current_b, pb) {
            Some(v) => v,
            None => {
                return None;
            },
        };
        Some((ra, rb))
    }

    /// Loan-to-value limit of the credit tier reached by `rep`.
    pub fn get_reputation_tier_limit(rep: i128) -> (limit: i128)
        ensures
            limit == tier_limit(rep as int),
    {
        if rep >= TIER_DIAMOND_REP {
            TIER_DIAMOND_LTV
        } else if rep >= TIER_GOLD_REP {
            TIER_GOLD_LTV
        } else if rep >= TIER_SILVER_REP {
            TIER_SILVER_LTV
        } else {
            0
        }
    }

    /// The platform and insurance fee percentages that `creator` would be charged now.
    pub fn calculate_dynamic_fees(&self, creator: AccountId, now: u64) -> (r: (i128, i128))
        ensures
            (r.0 as int, r.1 as int) == dynamic_fees(
                self.reputation_of(creator),
                self.utilization(now),
            ),
    {
        let rep = self.get_reputation_internal(creator);
        let mut platform_fee: i128 = 2;
        let insurance_fee: i128 = 1;
        if rep >= 100 {
            platform_fee = 1;
        } else if rep < 20 {
            platform_fee = 4;
        }
        let pool = pool_state(self.pool.metrics, now);
        if pool.pool_utilization < liquidity::MIN_POOL_UTILIZATION {
            platform_fee = platform_fee + liquidity::LIQUIDITY_SURCHARGE;
        } else if pool.pool_utilization > liquidity::MAX_POOL_UTILIZATION {
            platform_fee = if platform_fee - liquidity::LIQUIDITY_DISCOUNT > 0 {
                platform_fee - liquidity::LIQUIDITY_DISCOUNT
            } else {
                0
            };
        }
        (platform_fee, insurance_fee)
    }

    /// The escrow of the running contracts, with the commitment `id` counted as `value`
    /// when `replace` holds (as it will be once stored).
    fn escrow_sum(&self, replace: bool, id: u64, value: i128, Ghost(m): Ghost<Map<u64, Commitment>>) -> (r:
        Option<i128>)
        requires
            !replace ==> m == self.commitments@,
            replace ==> m.contains_key(id) && counted(m[id]) == value && m == self.commitments@.insert(
                id,
                m[id],
            ),
        ensures
            r == escrow_total(m, self.counter()),
    {
        let counter: u64 = match self.config.contract_counter {
            Some(c) => c,
            None => 0,
        };
        let mut total: i128 = 0;
        let mut i: u64 = 0;
        while i < counter
            invariant
                i <= counter,
                counter == self.counter(),
                escrow_total(m, i as nat) == Some(total),
                !replace ==> m == self.commitments@,
                replace ==> m.contains_key(id) && counted(m[id]) == value && m
                    == self.commitments@.insert(id, m[id]),
            decreases counter - i,
        {
            let k = i + 1;
            let here: i128 = if replace && k == id {
                value
            } else {
                match self.commitments.get(&k) {
                    Some(c) => if c.status == CommitmentStatus::Active || c.status
                        == CommitmentStatus::AwaitingReview {
                        c.escrow_balance
                    } else {
                        0
                    },
                    None => 0,
                }
            };
            assert(here == counted_at(m, k));
            total = match total.checked_add(here) {
                Some(t) => t,
                None => {
                    proof {
                        assert(escrow_total(m, k as nat) is None);
                        lemma_escrow_total_none(m, k as nat, self.counter());
                    }
                    return None;
                },
            };
            i = k;
        }
        Some(total)
    }

    /// The first check that creating a commitment fails.
    pub open spec fn create_error(
        &self,
        creator: AccountId,
        counterparty: AccountId,
        params: CommitmentParams,
        now: u64,
    ) -> Option<MithaqError> {
        let net = params.net_value as int;
        let dp = params.down_payment as int;
        let id_fits = self.counter() + 1 <= u64::MAX;
        if self.config.pi_server is None {
            Some(MithaqError::PiServerNotSet)
        } else if net <= 0 {
            Some(MithaqError::NetValueNotPositive)
        } else if dp < 0 || dp > net {
            Some(MithaqError::InvalidDownPayment)
        } else if creator == counterparty {
            Some(MithaqError::SelfDealing)
        } else if !common::fits_i128(params.first_release_amount + params.second_release_amount) {
            Some(MithaqError::Overflow)
        } else if params.first_release_amount + params.second_release_amount != net {
            Some(MithaqError::AmountsMismatch)
        } else if params.deadline <= now {
            Some(MithaqError::DeadlineNotInFuture)
        } else if params.contract_type@ == lending_symbol() {
            let ltv = tier_limit(self.reputation_of(creator));
            if ltv == 0 {
                Some(MithaqError::ReputationTooLow)
            } else if !common::fits_i128((net - dp) * 100) {
                Some(MithaqError::Overflow)
            } else if common::tdiv((net - dp) * 100, net) > ltv {
                Some(MithaqError::LtvExceedsTier)
            } else if !id_fits {
                Some(MithaqError::Overflow)
            } else {
                None
            }
        } else if dp != net {
            Some(MithaqError::FullDownPaymentRequired)
        } else if !id_fits {
            Some(MithaqError::Overflow)
        } else {
            None
        }
    }

    /// The commitment that `create_commitment` stores under `id`.
    pub open spec fn created(
        &self,
        id: u64,
        creator: AccountId,
        counterparty: AccountId,
        params: CommitmentParams,
        now: u64,
    ) -> Commitment {
        let (pf, inf) = dynamic_fees(self.reputation_of(creator), self.utilization(now));
        Commitment {
            id,
            creator,
            counterparty,
            original_value: params.original_value,
            net_value: params.net_value,
            down_payment: params.down_payment,
            first_release_amount: params.first_release_amount,
            second_release_amount: params.second_release_amount,
            contract_type: contract_type_of(params.contract_type),
            status: CommitmentStatus::Pending,
            deadline: params.deadline,
            accepted_at: 0,
            review_deadline: 0,
            auto_release_deadline: 0,
            first_release_done: false,
            payment_status: PaymentStatus::Pending,
            custom_step: 0,
            escrow_balance: 0,
            platform_fee_percent: pf as i128,
            insurance_fee_percent: inf as i128,
            legal_doc_hash: params.legal_doc_hash,
            extra_data: ExtraData { delivery_proof_hash: None, milestone: None, installment: None },
            created_at: now,
            contributes_to_pool: false,
            liquidity_contribution: 0,
        }
    }

    /// The payment server registers a commitment that `creator` offers `counterparty`.
    /// A reputation-backed loan needs the creator's credit tier to allow its loan-to-value;
    /// any other contract must be paid in full up front. The fees are fixed now from the
    /// creator's reputation and the pool's utilization. Returns the new identifier.
    pub fn create_commitment(
        &mut self,
        creator: AccountId,
        counterparty: AccountId,
        params: CommitmentParams,
        now: u64,
    ) -> (res: Result<u64, MithaqError>)
        ensures
            match old(self).create_error(creator, counterparty, params, now) {
                Some(e) => res == Err::<u64, MithaqError>(e) && *final(self) == *old(self),
                None => {
                    let id = (old(self).counter() + 1) as u64;
                    &&& res == Ok::<u64, MithaqError>(id)
                    &&& final(self).config == (EscrowConfig {
                        contract_counter: Some(id),
                        ..old(self).config
                    })
                    &&& final(self).commitments@ == old(self).commitments@.insert(
                        id,
                        old(self).created(id, creator, counterparty, params, now),
                    )
                    &&& final(self).pool == old(self).pool
                    &&& final(self).disputes@ == old(self).disputes@
                    &&& final(self).reputation@ == old(self).reputation@
                },
            },
    {
        if self.config.pi_server.is_none() {
            return Err(MithaqError::PiServerNotSet);
        }
        let net_value = params.net_value;
        let down_payment = params.down_payment;
        if net_value <= 0 {
            return Err(MithaqError::NetValueNotPositive);
        }
        if down_payment < 0 || down_payment > net_value {
            return Err(MithaqError::InvalidDownPayment);
        }
        if creator == counterparty {
            return Err(MithaqError::SelfDealing);
        }
        let released = match params.first_release_amount.checked_add(
            params.second_release_amount,
        ) {
            Some(x) => x,
            None => {
                return Err(MithaqError::Overflow);
            },
        };
        if released != net_value {
            return Err(MithaqError::AmountsMismatch);
        }
        if params.deadline <= now {
            return Err(MithaqError::DeadlineNotInFuture);
        }
        let repl: [u8; 4] = [82, 69, 80, 76];
        assert(repl@ =~= lending_symbol());
        if text_matches(&params.contract_type, &repl) {
            let reputation = self.get_reputation_internal(creator);
            let max_ltv = Self::get_reputation_tier_limit(reputation);
            if max_ltv == 0 {
                return Err(MithaqError::ReputationTooLow);
            }
            let loan_amount = net_value - down_payment;
            let scaled = match loan_amount.checked_mul(100) {
                Some(x) => x,
                None => {
                    return Err(MithaqError::Overflow);
                },
            };
            let requested_ltv = scaled / net_value;
            if requested_ltv > max_ltv {
                return Err(MithaqError::LtvExceedsTier);
            }
        } else {
            if down_payment != net_value {
                return Err(MithaqError::FullDownPaymentRequired);
            }
        }
        let (platform_fee, insurance_fee) = self.calculate_dynamic_fees(creator, now);
        let previous: u64 = match self.config.contract_counter {
            Some(c) => c,
            None => 0,
        };
        let id = match previous.checked_add(1) {
            Some(x) => x,
            None => {
                return Err(MithaqError::Overflow);
            },
        };
        let ghost expected = self.created(id, creator, counterparty, params, now);
        let CommitmentParams {
            original_value,
            net_value: _,
            down_payment: _,
            contract_type,
            deadline,
            pi_payment_id: _,
            first_release_amount,
            second_release_amount,
            legal_doc_hash,
        } = params;
        let commitment = Commitment {
            id,
            creator,
            counterparty,
            original_value,
            net_value,
            down_payment,
            first_release_amount,
            second_release_amount,
            contract_type: ContractType::classify(contract_type),
            status: CommitmentStatus::Pending,
            deadline,
            accepted_at: 0,
            review_deadline: 0,
            auto_release_deadline: 0,
            first_release_done: false,
            payment_status: PaymentStatus::Pending,
            custom_step: 0,
            escrow_balance: 0,
            platform_fee_percent: platform_fee,
            insurance_fee_percent: insurance_fee,
            legal_doc_hash,
            extra_data: ExtraData { delivery_proof_hash: None, milestone: None, installment: None },
            created_at: now,
            contributes_to_pool: false,
            liquidity_contribution: 0,
        };
        assert(commitment == expected);
        self.config.contract_counter = Some(id);
        self.commitments.insert(id, commitment);
        Ok(id)
    }
}

/// Once a partial sum of the escrow leaves its range, the total does too.
proof fn lemma_escrow_total_none(m: Map<u64, Commitment>, k: nat, n: nat)
    requires
        k <= n,
        escrow_total(m, k) is None,
    ensures
        escrow_total(m, n) is None,
    decreases n - k,
{
    if k < n {
        lemma_escrow_total_none(m, k + 1, n);
    }
}

} // verus!

verus! {

impl MithaqContract {
    /// What accepting commitment `id` comes to: the updated commitment, the pool, the pool's
    /// event and the token; or the first check that fails.
    pub open spec fn accept_plan(&self, id: u64, funder: AccountId, verified_doc_hash: Seq<u8>, now: u64) -> Result<
        (Commitment, LiquidityEngine, Option<PoolEvent>, AccountId),
        MithaqError,
    > {
        match self.commitment(id) {
            None => Err(MithaqError::CommitmentNotFound),
            Some(c) => if c.status != CommitmentStatus::Pending {
                Err(MithaqError::NotPending)
            } else if now > c.deadline {
                Err(MithaqError::OfferExpired)
            } else if c.legal_doc_hash@ != verified_doc_hash {
                Err(MithaqError::LegalHashMismatch)
            } else if funder != c.counterparty {
                Err(MithaqError::NotCounterparty)
            } else if self.config.azman_token is None {
                Err(MithaqError::TokenNotSet)
            } else {
                match self.pool.contribution(id, c.down_payment, self.total_escrow(), now) {
                    None => Err(MithaqError::Overflow),
                    Some((e, contribution, ev)) => Ok(
                        (
                            Commitment {
                                escrow_balance: c.down_payment,
                                status: CommitmentStatus::Active,
                                accepted_at: now,
                                contributes_to_pool: if contribution > 0 {
                                    true
                                } else {
                                    c.contributes_to_pool
                                },
                                liquidity_contribution: if contribution > 0 {
                                    contribution
                                } else {
                                    c.liquidity_contribution
                                },
                                ..c
                            },
                            e,
                            ev,
                            self.config.azman_token.unwrap(),
                        ),
                    ),
                }
            },
        }
    }

    /// The counterparty accepts a pending offer before its deadline, confirming the legal
    /// document's hash; its down payment moves into escrow and part of it into the pool.
    pub fn accept_commitment(&mut self, id: u64, funder: AccountId, verified_doc_hash: &Text, now: u64) -> (res:
        Result<Settlement<ContractAccepted>, MithaqError>)
        ensures
            match old(self).accept_plan(id, funder, verified_doc_hash@, now) {
                Err(e) => res is Err && res->Err_0 == e && *final(self) == *old(self),
                Ok((c, e, ev, token)) => {
                    &&& res is Ok
                    &&& res->Ok_0.calls@ == seq![
                        EscrowCall::Transfer(
                            Movement::ToContract { token, from: funder, amount: c.down_payment },
                        ),
                    ]
                    &&& res->Ok_0.pool_events@ == liquidity::events_of(ev)
                    &&& res->Ok_0.event == (ContractAccepted {
                        id,
                        counterparty: c.counterparty,
                        escrowed_amount: c.down_payment,
                    })
                    &&& final(self).commitments@ == old(self).commitments@.insert(id, c)
                    &&& final(self).pool == e
                    &&& final(self).config == old(self).config
                    &&& final(self).disputes@ == old(self).disputes@
                    &&& final(self).reputation@ == old(self).reputation@
                },
            },
    {
        let (down_payment, counterparty) = match self.commitments.get(&id) {
            None => {
                return Err(MithaqError::CommitmentNotFound);
            },
            Some(c) => {
                if c.status != CommitmentStatus::Pending {
                    return Err(MithaqError::NotPending);
                }
                if now > c.deadline {
                    return Err(MithaqError::OfferExpired);
                }
                if !texts_equal(&c.legal_doc_hash, verified_doc_hash) {
                    return Err(MithaqError::LegalHashMismatch);
                }
                if funder != c.counterparty {
                    return Err(MithaqError::NotCounterparty);
                }
                (c.down_payment, c.counterparty)
            },
        };
        let token = match self.config.azman_token {
            Some(t) => t,
            None => {
                return Err(MithaqError::TokenNotSet);
            },
        };
        let total_escrow = self.escrow_sum(false, 0, 0, Ghost(self.commitments@));
        let (engine, contribution, event) = match self.pool.contribute_to_pool(
            id,
            down_payment,
            total_escrow,
            now,
        ) {
            Some(x) => x,
            None => {
                return Err(MithaqError::Overflow);
            },
        };
        let ghost before = self.commitments@;
        let mut c = self.commitments.remove(&id).unwrap();
        c.escrow_balance = down_payment;
        c.status = CommitmentStatus::Active;
        c.accepted_at = now;
        if contribution > 0 {
            c.contributes_to_pool = true;
            c.liquidity_contribution = contribution;
        }
        self.commitments.insert(id, c);
        assert(self.commitments@ =~= before.insert(id, self.commitments@[id]));
        self.pool = engine;
        let mut calls: Vec<EscrowCall> = Vec::new();
        calls.push(
            EscrowCall::Transfer(Movement::ToContract { token, from: funder, amount: down_payment }),
        );
        let mut pool_events: Vec<PoolEvent> = Vec::new();
        if let Some(x) = event {
            pool_events.push(x);
        }
        assert(pool_events@ =~= liquidity::events_of(event));
        assert(calls@ =~= seq![
            EscrowCall::Transfer(Movement::ToContract { token, from: funder, amount: down_payment }),
        ]);
        Ok(
            Settlement {
                calls,
                pool_events,
                event: ContractAccepted { id, counterparty, escrowed_amount: down_payment },
            },
        )
    }

    /// What cancelling commitment `id` comes to: the updated commitment, the pool, the
    /// pool's event, the calls and the event; or the first check that fails.
    pub open spec fn cancel_plan(&self, id: u64, caller: AccountId, reason: Seq<u8>, now: u64) -> Result<
        (Commitment, LiquidityEngine, Option<PoolEvent>, Seq<EscrowCall>, ContractCancelled),
        MithaqError,
    > {
        match self.commitment(id) {
            None => Err(MithaqError::CommitmentNotFound),
            Some(c) => if c.status != CommitmentStatus::Pending && !consent_reason(reason) {
                Err(MithaqError::ConsentRequired)
            } else if caller != c.creator && caller != c.counterparty {
                Err(MithaqError::NotAParty)
            } else {
                let refunded = c.escrow_balance;
                let w = if c.contributes_to_pool {
                    self.pool.withdrawal(id, c.liquidity_contribution, self.total_escrow(), now)
                } else {
                    Some((self.pool, None))
                };
                match w {
                    None => Err(MithaqError::Overflow),
                    Some((e, ev)) => if refunded > 0 && self.config.azman_token is None {
                        Err(MithaqError::TokenNotSet)
                    } else {
                        Ok(
                            (
                                Commitment {
                                    status: CommitmentStatus::Cancelled,
                                    contributes_to_pool: false,
                                    liquidity_contribution: if c.contributes_to_pool {
                                        0
                                    } else {
                                        c.liquidity_contribution
                                    },
                                    escrow_balance: if refunded > 0 {
                                        0
                                    } else {
                                        c.escrow_balance
                                    },
                                    ..c
                                },
                                e,
                                ev,
                                payment(self.config.azman_token.unwrap(), c.counterparty, refunded),
                                ContractCancelled { id, by: caller, refunded },
                            ),
                        )
                    },
                }
            },
        }
    }

    /// A party cancels a commitment: freely while it is pending, afterwards only for
    /// mutual consent (`MUTUAL`) or force majeure (`FORCE_MAJ`). Its pooled part leaves
    /// the pool and the escrow is refunded to the counterparty.
    pub fn cancel_commitment(&mut self, id: u64, caller: AccountId, reason: &Text, now: u64) -> (res:
        Result<Settlement<ContractCancelled>, MithaqError>)
        ensures
            match old(self).cancel_plan(id, caller, reason@, now) {
                Err(e) => res is Err && res->Err_0 == e && *final(self) == *old(self),
                Ok((c, e, ev, calls, event)) => {
                    &&& res is Ok
                    &&& res->Ok_0.calls@ == calls
                    &&& res->Ok_0.pool_events@ == liquidity::events_of(ev)
                    &&& res->Ok_0.event == event
                    &&& final(self).commitments@ == old(self).commitments@.insert(id, c)
                    &&& final(self).pool == e
                    &&& final(self).config == old(self).config
                    &&& final(self).disputes@ == old(self).disputes@
                    &&& final(self).reputation@ == old(self).reputation@
                },
            },
    {
        let consent = is_consent_reason(reason);
        let (escrow_balance, contributes, contribution, counterparty) = match self.commitments.get(
            &id,
        ) {
            None => {
                return Err(MithaqError::CommitmentNotFound);
            },
            Some(c) => {
                if c.status != CommitmentStatus::Pending && !consent {
                    return Err(MithaqError::ConsentRequired);
                }
                if caller != c.creator && caller != c.counterparty {
                    return Err(MithaqError::NotAParty);
                }
                (c.escrow_balance, c.contributes_to_pool, c.liquidity_contribution, c.counterparty)
            },
        };
        let refunded = escrow_balance;
        let (engine, event) = if contributes {
            let total_escrow = self.escrow_sum(false, 0, 0, Ghost(self.commitments@));
            match self.pool.withdraw_from_pool(id, contribution, total_escrow, now) {
                Some(x) => x,
                None => {
                    return Err(MithaqError::Overflow);
                },
            }
        } else {
            (self.pool, None)
        };
        let mut calls: Vec<EscrowCall> = Vec::new();
        if refunded > 0 {
            let token = match self.config.azman_token {
                Some(t) => t,
                None => {
                    return Err(MithaqError::TokenNotSet);
                },
            };
            calls.push(
                EscrowCall::Transfer(Movement::FromContract { token, to: counterparty, amount: refunded }),
            );
        }
        assert(calls@ =~= payment(self.config.azman_token.unwrap(), counterparty, refunded));
        let ghost before = self.commitments@;
        let mut c = self.commitments.remove(&id).unwrap();
        c.status = CommitmentStatus::Cancelled;
        if contributes {
            c.contributes_to_pool = false;
            c.liquidity_contribution = 0;
        }
        if refunded > 0 {
            c.escrow_balance = 0;
        }
        self.commitments.insert(id, c);
        assert(self.commitments@ =~= before.insert(id, self.commitments@[id]));
        self.pool = engine;
        let mut pool_events: Vec<PoolEvent> = Vec::new();
        if let Some(x) = event {
            pool_events.push(x);
        }
        assert(pool_events@ =~= liquidity::events_of(event));
        Ok(Settlement { calls, pool_events, event: ContractCancelled { id, by: caller, refunded } })
    }

    /// The payment server records a payment status (a symbol); `CANC` cancels the
    /// commitment too.
    pub fn update_payment_status(&mut self, id: u64, payment_status: Text) -> (res: Result<
        (),
        MithaqError,
    >)
        ensures
            old(self).config.pi_server is None ==> res == Err::<(), MithaqError>(
                MithaqError::PiServerNotSet,
            ) && *final(self) == *old(self),
            old(self).config.pi_server is Some && old(self).commitment(id) is None ==> res == Err::<
                (),
                MithaqError,
            >(MithaqError::CommitmentNotFound) && *final(self) == *old(self),
            old(self).config.pi_server is Some && old(self).commitment(id) is Some ==> {
                let c = old(self).commitment(id).unwrap();
                let ps = payment_status_of(payment_status);
                &&& res == Ok::<(), MithaqError>(())
                &&& final(self).commitments@ == old(self).commitments@.insert(
                    id,
                    Commitment {
                        payment_status: ps,
                        status: if ps == PaymentStatus::Cancelled {
                            CommitmentStatus::Cancelled
                        } else {
                            c.status
                        },
                        ..c
                    },
                )
                &&& final(self).pool == old(self).pool
                &&& final(self).config == old(self).config
                &&& final(self).disputes@ == old(self).disputes@
                &&& final(self).reputation@ == old(self).reputation@
            },
    {
        if self.config.pi_server.is_none() {
            return Err(MithaqError::PiServerNotSet);
        }
        if !self.commitments.contains_key(&id) {
            return Err(MithaqError::CommitmentNotFound);
        }
        let ghost before = self.commitments@;
        let mut c = self.commitments.remove(&id).unwrap();
        let status = PaymentStatus::classify(payment_status);
        let cancels = match &status {
            PaymentStatus::Cancelled => true,
            _ => false,
        };
        c.payment_status = status;
        if cancels {
            c.status = CommitmentStatus::Cancelled;
        }
        self.commitments.insert(id, c);
        assert(self.commitments@ =~= before.insert(id, self.commitments@[id]));
        Ok(())
    }

    /// The first check that confirming delivery fails.
    pub open spec fn delivery_error(&self, id: u64, counterparty: AccountId, now: u64) -> Option<
        MithaqError,
    > {
        match self.commitment(id) {
            None => Some(MithaqError::CommitmentNotFound),
            Some(c) => if counterparty != c.counterparty {
                Some(MithaqError::NotCounterparty)
            } else if c.status != CommitmentStatus::Active {
                Some(MithaqError::NotActive)
            } else if c.first_release_done {
                Some(MithaqError::AlreadyReleased)
            } else if now + REVIEW_PERIOD_SECONDS + AUTO_RELEASE_SECONDS > u64::MAX {
                Some(MithaqError::Overflow)
            } else {
                None
            },
        }
    }

    /// The counterparty confirms delivery with a proof hash: the review period starts,
    /// followed by the grace period before an automatic release. Returns the first release
    /// amount.
    pub fn confirm_delivery(&mut self, id: u64, counterparty: AccountId, biometric_hash: Text, now: u64) -> (res:
        Result<i128, MithaqError>)
        ensures
            match old(self).delivery_error(id, counterparty, now) {
                Some(e) => res == Err::<i128, MithaqError>(e) && *final(self) == *old(self),
                None => {
                    let c = old(self).commitment(id).unwrap();
                    &&& res == Ok::<i128, MithaqError>(c.first_release_amount)
                    &&& final(self).commitments@ == old(self).commitments@.insert(
                        id,
                        Commitment {
                            first_release_done: true,
                            status: CommitmentStatus::AwaitingReview,
                            review_deadline: (now + REVIEW_PERIOD_SECONDS) as u64,
                            auto_release_deadline: (now + REVIEW_PERIOD_SECONDS
                                + AUTO_RELEASE_SECONDS) as u64,
                            extra_data: ExtraData {
                                delivery_proof_hash: Some(biometric_hash),
                                ..c.extra_data
                            },
                            ..c
                        },
                    )
                    &&& final(self).pool == old(self).pool
                    &&& final(self).config == old(self).config
                    &&& final(self).disputes@ == old(self).disputes@
                    &&& final(self).reputation@ == old(self).reputation@
                },
            },
    {
        let first_release_amount = match self.commitments.get(&id) {
            None => {
                return Err(MithaqError::CommitmentNotFound);
            },
            Some(c) => {
                if counterparty != c.counterparty {
                    return Err(MithaqError::NotCounterparty);
                }
                if c.status != CommitmentStatus::Active {
                    return Err(MithaqError::NotActive);
                }
                if c.first_release_done {
                    return Err(MithaqError::AlreadyReleased);
                }
                c.first_release_amount
            },
        };
        let review_deadline = match now.checked_add(REVIEW_PERIOD_SECONDS) {
            Some(x) => x,
            None => {
                return Err(MithaqError::Overflow);
            },
        };
        let auto_release_deadline = match review_deadline.checked_add(AUTO_RELEASE_SECONDS) {
            Some(x) => x,
            None => {
                return Err(MithaqError::Overflow);
            },
        };
        let ghost before = self.commitments@;
        let mut c = self.commitments.remove(&id).unwrap();
        c.first_release_done = true;
        c.status = CommitmentStatus::AwaitingReview;
        c.review_deadline = review_deadline;
        c.auto_release_deadline = auto_release_deadline;
        c.extra_data.delivery_proof_hash = Some(biometric_hash);
        self.commitments.insert(id, c);
        assert(self.commitments@ =~= before.insert(id, self.commitments@[id]));
        Ok(first_release_amount)
    }
}

} // verus!

verus! {

/// The platform fee percentage `percent` of `base`, rounded toward zero: `None` when the
/// product leaves the range of an `i128`.
pub open spec fn fee_on(base: i128, percent: i128) -> Option<i128> {
    if common::fits_i128(base * percent) {
        Some(common::tdiv(base * percent, 100) as i128)
    } else {
        None
    }
}

impl MithaqContract {
    /// Charges the platform fee on `fee_base` and settles the pool for the ending contract
    /// `c`: the new pool, its events and the fees.
    pub open spec fn closing(&self, c: Commitment, fee_base: i128, total_escrow: Option<i128>, now: u64) -> Option<
        (LiquidityEngine, Seq<PoolEvent>, i128),
    > {
        match fee_on(fee_base, c.platform_fee_percent) {
            None => None,
            Some(fees) => match self.pool.settlement(
                c.id,
                c.contributes_to_pool,
                c.liquidity_contribution,
                fees,
                total_escrow,
                now,
            ) {
                None => None,
                Some((e, evs)) => Some((e, evs, fees)),
            },
        }
    }

    fn close_contract(
        &self,
        contract_id: u64,
        contributes_to_pool: bool,
        liquidity_contribution: i128,
        platform_fee_percent: i128,
        fee_base: i128,
        total_escrow: Option<i128>,
        now: u64,
        Ghost(c): Ghost<Commitment>,
    ) -> (r: Option<(LiquidityEngine, Vec<PoolEvent>, i128)>)
        requires
            c.id == contract_id,
            c.contributes_to_pool == contributes_to_pool,
            c.liquidity_contribution == liquidity_contribution,
            c.platform_fee_percent == platform_fee_percent,
        ensures
            match self.closing(c, fee_base, total_escrow, now) {
                None => r is None,
                Some((e, evs, fees)) => r is Some && r.unwrap().0 == e && r.unwrap().1@ == evs
                    && r.unwrap().2 == fees,
            },
    {
        let scaled = match fee_base.checked_mul(platform_fee_percent) {
            Some(x) => x,
            None => {
                return None;
            },
        };
        let fees_paid = scaled / 100;
        match self.pool.process_hybrid_liquidity(
            contract_id,
            contributes_to_pool,
            liquidity_contribution,
            fees_paid,
            total_escrow,
            now,
        ) {
            Some((e, evs)) => Some((e, evs, fees_paid)),
            None => None,
        }
    }

    /// What confirming the review of commitment `id` comes to: the updated commitment, the
    /// reputations, the pool, its events, the calls and the event; or the first check that
    /// fails.
    pub open spec fn review_plan(&self, id: u64, counterparty: AccountId, now: u64) -> Result<
        (
            Commitment,
            Map<AccountId, i128>,
            LiquidityEngine,
            Seq<PoolEvent>,
            Seq<EscrowCall>,
            ContractCompleted,
        ),
        MithaqError,
    > {
        match self.commitment(id) {
            None => Err(MithaqError::CommitmentNotFound),
            Some(c) => if counterparty != c.counterparty {
                Err(MithaqError::NotCounterparty)
            } else if c.status != CommitmentStatus::AwaitingReview {
                Err(MithaqError::NotInReview)
            } else {
                match rep_add_two(
                    self.reputation@,
                    c.creator,
                    REPUTATION_COMPLETION_REWARD as int,
                    c.counterparty,
                    REPUTATION_COMPLETION_REWARD as int,
                ) {
                    None => Err(MithaqError::Overflow),
                    Some(rep) => {
                        let payout = c.escrow_balance;
                        let c2 = Commitment {
                            escrow_balance: 0,
                            status: CommitmentStatus::Completed,
                            ..c
                        };
                        if self.config.certificate_registry is None {
                            Err(MithaqError::RegistryNotSet)
                        } else if self.config.azman_token is None {
                            Err(MithaqError::TokenNotSet)
                        } else {
                            let token = self.config.azman_token.unwrap();
                            match self.closing(
                                c,
                                payout,
                                self.escrow_with(self.commitments@.insert(id, c2)),
                                now,
                            ) {
                                None => Err(MithaqError::Overflow),
                                Some((e, evs, fees)) => Ok(
                                    (
                                        c2,
                                        rep,
                                        e,
                                        evs,
                                        seq![
                                            EscrowCall::IssueCertificate {
                                                registry: self.config.certificate_registry.unwrap(),
                                                certificate_id: certificate_id_for(c.id),
                                                holder: c.creator,
                                                counterparty: c.counterparty,
                                                imprint: certificate_imprint(),
                                            },
                                        ] + payment(token, c.creator, payout) + seq![
                                            EscrowCall::ChargeFees {
                                                token,
                                                payer: c.creator,
                                                total_amount: payout,
                                            },
                                        ],
                                        ContractCompleted { id, final_payout: payout, fees_paid: fees },
                                    ),
                                ),
                            }
                        }
                    },
                }
            },
        }
    }

    /// The counterparty approves the delivered work: the escrow is paid to the creator,
    /// both parties gain reputation, a certificate of completion is issued, the token
    /// charges its fees and the pool is settled.
    pub fn confirm_review(&mut self, env: &soroban_sdk::Env, id: u64, counterparty: AccountId, now: u64) -> (res: Result<
        Settlement<ContractCompleted>,
        MithaqError,
    >)
        ensures
            match old(self).review_plan(id, counterparty, now) {
                Err(e) => res is Err && res->Err_0 == e && *final(self) == *old(self),
                Ok((c, rep, e, evs, calls, event)) => {
                    &&& res is Ok
                    &&& res->Ok_0.calls@ == calls
                    &&& res->Ok_0.pool_events@ == evs
                    &&& res->Ok_0.event == event
                    &&& final(self).commitments@ == old(self).commitments@.insert(id, c)
                    &&& final(self).reputation@ == rep
                    &&& final(self).pool == e
                    &&& final(self).config == old(self).config
                    &&& final(self).disputes@ == old(self).disputes@
                    &&& certificate_id_for(c.id)@ == digest::sha256_of(be_bytes(c.id))
                    &&& certificate_imprint()@ == imprint_text()
                },
            },
    {
        let (cid, creator, payout, percent, contributes, contribution) = match self.commitments.get(
            &id,
        ) {
            None => {
                return Err(MithaqError::CommitmentNotFound);
            },
            Some(c) => {
                if counterparty != c.counterparty {
                    return Err(MithaqError::NotCounterparty);
                }
                if c.status != CommitmentStatus::AwaitingReview {
                    return Err(MithaqError::NotInReview);
                }
                (
                    c.id,
                    c.creator,
                    c.escrow_balance,
                    c.platform_fee_percent,
                    c.contributes_to_pool,
                    c.liquidity_contribution,
                )
            },
        };
        let (rep_creator, rep_counterparty) = match self.plan_reputation(
            creator,
            REPUTATION_COMPLETION_REWARD,
            counterparty,
            REPUTATION_COMPLETION_REWARD,
        ) {
            Some(x) => x,
            None => {
                return Err(MithaqError::Overflow);
            },
        };
        let registry = match self.config.certificate_registry {
            Some(r) => r,
            None => {
                return Err(MithaqError::RegistryNotSet);
            },
        };
        let token = match self.config.azman_token {
            Some(t) => t,
            None => {
                return Err(MithaqError::TokenNotSet);
            },
        };
        let ghost c0 = self.commitments@[id];
        let ghost c2 = Commitment { escrow_balance: 0, status: CommitmentStatus::Completed, ..c0 };
        let total_escrow = self.escrow_sum(
            true,
            id,
            0,
            Ghost(self.commitments@.insert(id, c2)),
        );
        let (engine, pool_events, fees_paid) = match self.close_contract(
            cid,
            contributes,
            contribution,
            percent,
            payout,
            total_escrow,
            now,
            Ghost(c0),
        ) {
            Some(x) => x,
            None => {
                return Err(MithaqError::Overflow);
            },
        };
        let ghost before = self.commitments@;
        let mut c = self.commitments.remove(&id).unwrap();
        c.escrow_balance = 0;
        c.status = CommitmentStatus::Completed;
        self.commitments.insert(id, c);
        assert(self.commitments@ =~= before.insert(id, c2));
        self.reputation.insert(creator, rep_creator);
        self.reputation.insert(counterparty, rep_counterparty);
        self.pool = engine;
        let certificate_id = digest::sha256(env, be_bytes_of(cid).as_slice());
        let imprint: [u8; 15] = [77, 105, 116, 104, 97, 113, 32, 86, 101, 114, 105, 102, 105, 101, 100];
        proof {
            assert(imprint@ =~= imprint_text());
            let a = certificate_id_for(cid);
            assert(a@ == digest::sha256_of(be_bytes(cid)));
            assert(a =~= certificate_id);
            let b = certificate_imprint();
            assert(b@ == imprint_text());
            assert(b =~= imprint);
        }
        let mut calls: Vec<EscrowCall> = Vec::new();
        calls.push(
            EscrowCall::IssueCertificate {
                registry,
                certificate_id,
                holder: creator,
                counterparty,
                imprint,
            },
        );
        if payout > 0 {
            calls.push(
                EscrowCall::Transfer(Movement::FromContract { token, to: creator, amount: payout }),
            );
        }
        calls.push(EscrowCall::ChargeFees { token, payer: creator, total_amount: payout });
        assert(calls@ =~= seq![
            EscrowCall::IssueCertificate {
                registry,
                certificate_id: certificate_id_for(cid),
                holder: creator,
                counterparty,
                imprint: certificate_imprint(),
            },
        ] + payment(token, creator, payout) + seq![
            EscrowCall::ChargeFees { token, payer: creator, total_amount: payout },
        ]);
        Ok(
            Settlement {
                calls,
                pool_events,
                event: ContractCompleted { id, final_payout: payout, fees_paid },
            },
        )
    }
}

} // verus!

verus! {

impl MithaqContract {
    /// What releasing commitment `id` without a review comes to; or the first check that
    /// fails.
    pub open spec fn auto_release_plan(&self, id: u64, now: u64) -> Result<
        (
            Commitment,
            Map<AccountId, i128>,
            LiquidityEngine,
            Seq<PoolEvent>,
            Seq<EscrowCall>,
            AutoReleased,
        ),
        MithaqError,
    > {
        match self.commitment(id) {
            None => Err(MithaqError::CommitmentNotFound),
            Some(c) => if c.status != CommitmentStatus::AwaitingReview {
                Err(MithaqError::NotInReview)
            } else if now < c.auto_release_deadline {
                Err(MithaqError::GracePeriodActive)
            } else {
                match rep_add_two(
                    self.reputation@,
                    c.counterparty,
                    REPUTATION_NEGLECT_PENALTY as int,
                    c.creator,
                    REPUTATION_COMPLETION_REWARD as int,
                ) {
                    None => Err(MithaqError::Overflow),
                    Some(rep) => if self.config.azman_token is None {
                        Err(MithaqError::TokenNotSet)
                    } else {
                        let token = self.config.azman_token.unwrap();
                        let payout = c.escrow_balance;
                        match self.closing(c, payout, self.total_escrow(), now) {
                            None => Err(MithaqError::Overflow),
                            Some((e, evs, fees)) => Ok(
                                (
                                    Commitment {
                                        escrow_balance: 0,
                                        status: CommitmentStatus::AutoReleased,
                                        ..c
                                    },
                                    rep,
                                    e,
                                    evs,
                                    payment(token, c.creator, payout) + seq![
                                        EscrowCall::ChargeFees {
                                            token,
                                            payer: c.creator,
                                            total_amount: payout,
                                        },
                                    ],
                                    AutoReleased { id, payout },
                                ),
                            ),
                        }
                    },
                }
            },
        }
    }

    /// Anyone releases the escrow to the creator once the review and grace periods have
    /// passed without a review: the counterparty loses reputation for neglect, the creator
    /// gains some, the token charges its fees and the pool is settled.
    pub fn auto_release(&mut self, id: u64, now: u64) -> (res: Result<
        Settlement<AutoReleased>,
        MithaqError,
    >)
        ensures
            match old(self).auto_release_plan(id, now) {
                Err(e) => res is Err && res->Err_0 == e && *final(self) == *old(self),
                Ok((c, rep, e, evs, calls, event)) => {
                    &&& res is Ok
                    &&& res->Ok_0.calls@ == calls
                    &&& res->Ok_0.pool_events@ == evs
                    &&& res->Ok_0.event == event
                    &&& final(self).commitments@ == old(self).commitments@.insert(id, c)
                    &&& final(self).reputation@ == rep
                    &&& final(self).pool == e
                    &&& final(self).config == old(self).config
                    &&& final(self).disputes@ == old(self).disputes@
                },
            },
    {
        let (cid, creator, counterparty, payout, percent, contributes, contribution) =
            match self.commitments.get(&id) {
            None => {
                return Err(MithaqError::CommitmentNotFound);
            },
            Some(c) => {
                if c.status != CommitmentStatus::AwaitingReview {
                    return Err(MithaqError::NotInReview);
                }
                if now < c.auto_release_deadline {
                    return Err(MithaqError::GracePeriodActive);
                }
                (
                    c.id,
                    c.creator,
                    c.counterparty,
                    c.escrow_balance,
                    c.platform_fee_percent,
                    c.contributes_to_pool,
                    c.liquidity_contribution,
                )
            },
        };
        let (rep_counterparty, rep_creator) = match self.plan_reputation(
            counterparty,
            REPUTATION_NEGLECT_PENALTY,
            creator,
            REPUTATION_COMPLETION_REWARD,
        ) {
            Some(x) => x,
            None => {
                return Err(MithaqError::Overflow);
            },
        };
        let token = match self.config.azman_token {
            Some(t) => t,
            None => {
                return Err(MithaqError::TokenNotSet);
            },
        };
        let ghost c0 = self.commitments@[id];
        let total_escrow = self.escrow_sum(false, 0, 0, Ghost(self.commitments@));
        let (engine, pool_events, _fees_paid) = match self.close_contract(
            cid,
            contributes,
            contribution,
            percent,
            payout,
            total_escrow,
            now,
            Ghost(c0),
        ) {
            Some(x) => x,
            None => {
                return Err(MithaqError::Overflow);
            },
        };
        let ghost before = self.commitments@;
        let mut c = self.commitments.remove(&id).unwrap();
        c.escrow_balance = 0;
        c.status = CommitmentStatus::AutoReleased;
        self.commitments.insert(id, c);
        assert(self.commitments@ =~= before.insert(id, self.commitments@[id]));
        self.reputation.insert(counterparty, rep_counterparty);
        self.reputation.insert(creator, rep_creator);
        self.pool = engine;
        let mut calls: Vec<EscrowCall> = Vec::new();
        if payout > 0 {
            calls.push(
                EscrowCall::Transfer(Movement::FromContract { token, to: creator, amount: payout }),
            );
        }
        calls.push(EscrowCall::ChargeFees { token, payer: creator, total_amount: payout });
        assert(calls@ =~= payment(token, creator, payout) + seq![
            EscrowCall::ChargeFees { token, payer: creator, total_amount: payout },
        ]);
        Ok(Settlement { calls, pool_events, event: AutoReleased { id, payout } })
    }

    /// The first check that opening a dispute fails.
    pub open spec fn open_dispute_error(&self, id: u64, caller: AccountId) -> Option<MithaqError> {
        match self.commitment(id) {
            None => Some(MithaqError::CommitmentNotFound),
            Some(c) => if caller != c.creator && caller != c.counterparty {
                Some(MithaqError::NotAParty)
            } else if c.status != CommitmentStatus::AwaitingReview && c.status
                != CommitmentStatus::Active {
                Some(MithaqError::IneligibleForDispute)
            } else if self.disputes_opened() + 1 > u64::MAX {
                Some(MithaqError::Overflow)
            } else {
                None
            },
        }
    }

    /// A party opens a dispute over a running commitment, which is frozen as disputed; the
    /// other party is the defendant. Returns the dispute's identifier.
    pub fn open_dispute(&mut self, id: u64, caller: AccountId, now: u64) -> (res: Result<
        u64,
        MithaqError,
    >)
        ensures
            match old(self).open_dispute_error(id, caller) {
                Some(e) => res == Err::<u64, MithaqError>(e) && *final(self) == *old(self),
                None => {
                    let c = old(self).commitment(id).unwrap();
                    let dispute_id = (old(self).disputes_opened() + 1) as u64;
                    &&& res == Ok::<u64, MithaqError>(dispute_id)
                    &&& final(self).commitments@ == old(self).commitments@.insert(
                        id,
                        Commitment { status: CommitmentStatus::Disputed, ..c },
                    )
                    &&& final(self).disputes@ == old(self).disputes@.insert(
                        dispute_id,
                        Dispute {
                            id: dispute_id,
                            contract_id: id,
                            plaintiff: caller,
                            defendant: if caller == c.creator {
                                c.counterparty
                            } else {
                                c.creator
                            },
                            status: DisputeStatus::Open,
                            penalty: Penalty::Pending,
                            opened_at: now,
                            resolved_at: 0,
                        },
                    )
                    &&& final(self).config == (EscrowConfig {
                        dispute_counter: Some(dispute_id),
                        ..old(self).config
                    })
                    &&& final(self).pool == old(self).pool
                    &&& final(self).reputation@ == old(self).reputation@
                },
            },
    {
        let defendant = match self.commitments.get(&id) {
            None => {
                return Err(MithaqError::CommitmentNotFound);
            },
            Some(c) => {
                if caller != c.creator && caller != c.counterparty {
                    return Err(MithaqError::NotAParty);
                }
                if c.status != CommitmentStatus::AwaitingReview && c.status
                    != CommitmentStatus::Active {
                    return Err(MithaqError::IneligibleForDispute);
                }
                if caller == c.creator {
                    c.counterparty
                } else {
                    c.creator
                }
            },
        };
        let previous: u64 = match self.config.dispute_counter {
            Some(d) => d,
            None => 0,
        };
        let dispute_id = match previous.checked_add(1) {
            Some(x) => x,
            None => {
                return Err(MithaqError::Overflow);
            },
        };
        let ghost before = self.commitments@;
        let mut c = self.commitments.remove(&id).unwrap();
        c.status = CommitmentStatus::Disputed;
        self.commitments.insert(id, c);
        assert(self.commitments@ =~= before.insert(id, self.commitments@[id]));
        self.config.dispute_counter = Some(dispute_id);
        self.disputes.insert(
            dispute_id,
            Dispute {
                id: dispute_id,
                contract_id: id,
                plaintiff: caller,
                defendant,
                status: DisputeStatus::Open,
                penalty: Penalty::Pending,
                opened_at: now,
                resolved_at: 0,
            },
        );
        Ok(dispute_id)
    }
}

} // verus!

verus! {

fn points_for(p: &Penalty) -> (r: i128)
    ensures
        r as int == penalty_points(*p),
{
    match p {
        Penalty::Fraud => REPUTATION_FRAUD_PENALTY,
        Penalty::Breach => REPUTATION_BREACH_PENALTY,
        _ => REPUTATION_NEGLECT_PENALTY,
    }
}

impl MithaqContract {
    /// What resolving dispute `dispute_id` in favour of `winner` comes to: the updated
    /// dispute and commitment, the reputations, the pool, its events, the calls and the
    /// payout; or the first check that fails.
    pub open spec fn resolve_plan(&self, dispute_id: u64, winner: AccountId, penalty_type: Text, now: u64) -> Result<
        (
            Dispute,
            Commitment,
            Map<AccountId, i128>,
            LiquidityEngine,
            Seq<PoolEvent>,
            Seq<EscrowCall>,
            i128,
        ),
        MithaqError,
    > {
        if self.config.admin is None {
            Err(MithaqError::AdminNotSet)
        } else {
            match self.dispute(dispute_id) {
                None => Err(MithaqError::DisputeNotFound),
                Some(d) => if d.status != DisputeStatus::Open {
                    Err(MithaqError::CaseClosed)
                } else {
                    match self.commitment(d.contract_id) {
                        None => Err(MithaqError::CommitmentNotFound),
                        Some(c) => {
                            let penalty = penalty_of(penalty_type);
                            let loser = if winner == c.creator {
                                c.counterparty
                            } else {
                                c.creator
                            };
                            match rep_add_two(
                                self.reputation@,
                                loser,
                                penalty_points(penalty),
                                winner,
                                REPUTATION_COMPLETION_REWARD as int,
                            ) {
                                None => Err(MithaqError::Overflow),
                                Some(rep) => if self.config.azman_token is None {
                                    Err(MithaqError::TokenNotSet)
                                } else {
                                    let token = self.config.azman_token.unwrap();
                                    let payout = c.escrow_balance;
                                    match self.closing(c, payout, self.total_escrow(), now) {
                                        None => Err(MithaqError::Overflow),
                                        Some((e, evs, _fees)) => Ok(
                                            (
                                                Dispute {
                                                    status: DisputeStatus::Arbitrated,
                                                    penalty,
                                                    resolved_at: now,
                                                    ..d
                                                },
                                                Commitment {
                                                    status: CommitmentStatus::Completed,
                                                    escrow_balance: 0,
                                                    ..c
                                                },
                                                rep,
                                                e,
                                                evs,
                                                payment(token, winner, payout),
                                                payout,
                                            ),
                                        ),
                                    }
                                },
                            }
                        },
                    }
                },
            }
        }
    }

    /// The admin settles an open dispute: the loser is penalized (fraud, breach, or
    /// neglect for any other penalty), the winner rewarded and paid the escrow, and the
    /// pool is settled. Returns the payout.
    pub fn resolve_dispute(&mut self, dispute_id: u64, winner: AccountId, penalty_type: Text, now: u64) -> (res:
        Result<Settlement<i128>, MithaqError>)
        ensures
            match old(self).resolve_plan(dispute_id, winner, penalty_type, now) {
                Err(e) => res is Err && res->Err_0 == e && *final(self) == *old(self),
                Ok((d, c, rep, e, evs, calls, payout)) => {
                    &&& res is Ok
                    &&& res->Ok_0.calls@ == calls
                    &&& res->Ok_0.pool_events@ == evs
                    &&& res->Ok_0.event == payout
                    &&& final(self).disputes@ == old(self).disputes@.insert(dispute_id, d)
                    &&& final(self).commitments@ == old(self).commitments@.insert(
                        d.contract_id,
                        c,
                    )
                    &&& final(self).reputation@ == rep
                    &&& final(self).pool == e
                    &&& final(self).config == old(self).config
                },
            },
    {
        if self.config.admin.is_none() {
            return Err(MithaqError::AdminNotSet);
        }
        let contract_id = match self.disputes.get(&dispute_id) {
            None => {
                return Err(MithaqError::DisputeNotFound);
            },
            Some(d) => {
                if d.status != DisputeStatus::Open {
                    return Err(MithaqError::CaseClosed);
                }
                d.contract_id
            },
        };
        let (cid, creator, counterparty, payout, percent, contributes, contribution) =
            match self.commitments.get(&contract_id) {
            None => {
                return Err(MithaqError::CommitmentNotFound);
            },
            Some(c) => (
                c.id,
                c.creator,
                c.counterparty,
                c.escrow_balance,
                c.platform_fee_percent,
                c.contributes_to_pool,
                c.liquidity_contribution,
            ),
        };
        let penalty = Penalty::classify(penalty_type);
        let points = points_for(&penalty);
        let loser = if winner == creator {
            counterparty
        } else {
            creator
        };
        let (rep_loser, rep_winner) = match self.plan_reputation(
            loser,
            points,
            winner,
            REPUTATION_COMPLETION_REWARD,
        ) {
            Some(x) => x,
            None => {
                return Err(MithaqError::Overflow);
            },
        };
        let token = match self.config.azman_token {
            Some(t) => t,
            None => {
                return Err(MithaqError::TokenNotSet);
            },
        };
        let ghost c0 = self.commitments@[contract_id];
        let total_escrow = self.escrow_sum(false, 0, 0, Ghost(self.commitments@));
        let (engine, pool_events, _fees_paid) = match self.close_contract(
            cid,
            contributes,
            contribution,
            percent,
            payout,
            total_escrow,
            now,
            Ghost(c0),
        ) {
            Some(x) => x,
            None => {
                return Err(MithaqError::Overflow);
            },
        };
        self.reputation.insert(loser, rep_loser);
        self.reputation.insert(winner, rep_winner);
        let ghost disputes_before = self.disputes@;
        let mut d = self.disputes.remove(&dispute_id).unwrap();
        d.status = DisputeStatus::Arbitrated;
        d.penalty = penalty;
        d.resolved_at = now;
        self.disputes.insert(dispute_id, d);
        assert(self.disputes@ =~= disputes_before.insert(dispute_id, self.disputes@[dispute_id]));
        let ghost before = self.commitments@;
        let mut c = self.commitments.remove(&contract_id).unwrap();
        c.status = CommitmentStatus::Completed;
        c.escrow_balance = 0;
        self.commitments.insert(contract_id, c);
        assert(self.commitments@ =~= before.insert(contract_id, self.commitments@[contract_id]));
        self.pool = engine;
        let mut calls: Vec<EscrowCall> = Vec::new();
        if payout > 0 {
            calls.push(
                EscrowCall::Transfer(Movement::FromContract { token, to: winner, amount: payout }),
            );
        }
        assert(calls@ =~= payment(token, winner, payout));
        Ok(Settlement { calls, pool_events, event: payout })
    }
}

} // verus!

verus! {

impl MithaqContract {
    /// What releasing construction milestone `milestone` of commitment `id` comes to; or
    /// the first check that fails.
    pub open spec fn milestone_plan(&self, id: u64, caller: AccountId, milestone: u32, now: u64) -> Result<
        (
            Commitment,
            Map<AccountId, i128>,
            LiquidityEngine,
            Seq<PoolEvent>,
            Seq<EscrowCall>,
            MilestoneReleased,
        ),
        MithaqError,
    > {
        match self.commitment(id) {
            None => Err(MithaqError::CommitmentNotFound),
            Some(c) => if !(c.contract_type is Construction) {
                Err(MithaqError::NotConstruction)
            } else if caller != c.counterparty {
                Err(MithaqError::NotCounterparty)
            } else if c.status != CommitmentStatus::Active && c.status
                != CommitmentStatus::AwaitingReview {
                Err(MithaqError::ContractFrozen)
            } else if milestone <= match c.extra_data.milestone {
                Some(m) => m,
                None => 0,
            } {
                Err(MithaqError::MilestoneAlreadyReleased)
            } else if self.config.azman_token is None {
                Err(MithaqError::TokenNotSet)
            } else {
                let amount = common::tdiv(c.down_payment as int, MILESTONE_COUNT as int) as i128;
                let token = self.config.azman_token.unwrap();
                if !common::fits_i128(c.escrow_balance - amount) {
                    Err(MithaqError::Overflow)
                } else {
                    let c2 = Commitment {
                        extra_data: ExtraData { milestone: Some(milestone), ..c.extra_data },
                        escrow_balance: (c.escrow_balance - amount) as i128,
                        status: if milestone >= MILESTONE_COUNT {
                            CommitmentStatus::Completed
                        } else {
                            c.status
                        },
                        ..c
                    };
                    let calls = payment(token, c.creator, amount);
                    let event = MilestoneReleased { id, milestone, amount };
                    if milestone >= MILESTONE_COUNT {
                        match rep_add_two(
                            self.reputation@,
                            c.creator,
                            REPUTATION_COMPLETION_REWARD as int,
                            c.counterparty,
                            REPUTATION_COMPLETION_REWARD as int,
                        ) {
                            None => Err(MithaqError::Overflow),
                            Some(rep) => match self.closing(
                                c,
                                c.down_payment,
                                self.total_escrow(),
                                now,
                            ) {
                                None => Err(MithaqError::Overflow),
                                Some((e, evs, _fees)) => Ok((c2, rep, e, evs, calls, event)),
                            },
                        }
                    } else {
                        Ok((c2, self.reputation@, self.pool, Seq::empty(), calls, event))
                    }
                }
            },
        }
    }

    /// The counterparty of a construction contract releases a later milestone: a tenth of
    /// the down payment is paid to the creator out of the escrow. The last milestone
    /// completes the contract, rewards both parties and settles the pool.
    pub fn release_milestone(&mut self, id: u64, caller: AccountId, milestone: u32, now: u64) -> (res:
        Result<Settlement<MilestoneReleased>, MithaqError>)
        ensures
            match old(self).milestone_plan(id, caller, milestone, now) {
                Err(e) => res is Err && res->Err_0 == e && *final(self) == *old(self),
                Ok((c, rep, e, evs, calls, event)) => {
                    &&& res is Ok
                    &&& res->Ok_0.calls@ == calls
                    &&& res->Ok_0.pool_events@ == evs
                    &&& res->Ok_0.event == event
                    &&& final(self).commitments@ == old(self).commitments@.insert(id, c)
                    &&& final(self).reputation@ == rep
                    &&& final(self).pool == e
                    &&& final(self).config == old(self).config
                    &&& final(self).disputes@ == old(self).disputes@
                },
            },
    {
        let (cid, creator, counterparty, down_payment, escrow, percent, contributes, contribution) =
            match self.commitments.get(&id) {
            None => {
                return Err(MithaqError::CommitmentNotFound);
            },
            Some(c) => {
                match &c.contract_type {
                    ContractType::Construction => {},
                    _ => {
                        return Err(MithaqError::NotConstruction);
                    },
                }
                if caller != c.counterparty {
                    return Err(MithaqError::NotCounterparty);
                }
                if c.status != CommitmentStatus::Active && c.status
                    != CommitmentStatus::AwaitingReview {
                    return Err(MithaqError::ContractFrozen);
                }
                let current: u32 = match c.extra_data.milestone {
                    Some(m) => m,
                    None => 0,
                };
                if milestone <= current {
                    return Err(MithaqError::MilestoneAlreadyReleased);
                }
                (
                    c.id,
                    c.creator,
                    c.counterparty,
                    c.down_payment,
                    c.escrow_balance,
                    c.platform_fee_percent,
                    c.contributes_to_pool,
                    c.liquidity_contribution,
                )
            },
        };
        let amount = down_payment / 10;
        let token = match self.config.azman_token {
            Some(t) => t,
            None => {
                return Err(MithaqError::TokenNotSet);
            },
        };
        let new_escrow = match escrow.checked_sub(amount) {
            Some(x) => x,
            None => {
                return Err(MithaqError::Overflow);
            },
        };
        let completes = milestone >= MILESTONE_COUNT;
        let mut pool_events: Vec<PoolEvent> = Vec::new();
        if completes {
            let (rep_creator, rep_counterparty) = match self.plan_reputation(
                creator,
                REPUTATION_COMPLETION_REWARD,
                counterparty,
                REPUTATION_COMPLETION_REWARD,
            ) {
                Some(x) => x,
                None => {
                    return Err(MithaqError::Overflow);
                },
            };
            let ghost c0 = self.commitments@[id];
            let total_escrow = self.escrow_sum(false, 0, 0, Ghost(self.commitments@));
            let (engine, evs, _fees_paid) = match self.close_contract(
                cid,
                contributes,
                contribution,
                percent,
                down_payment,
                total_escrow,
                now,
                Ghost(c0),
            ) {
                Some(x) => x,
                None => {
                    return Err(MithaqError::Overflow);
                },
            };
            self.reputation.insert(creator, rep_creator);
            self.reputation.insert(counterparty, rep_counterparty);
            self.pool = engine;
            pool_events = evs;
        }
        let ghost before = self.commitments@;
        let mut c = self.commitments.remove(&id).unwrap();
        c.extra_data.milestone = Some(milestone);
        c.escrow_balance = new_escrow;
        if completes {
            c.status = CommitmentStatus::Completed;
        }
        self.commitments.insert(id, c);
        assert(self.commitments@ =~= before.insert(id, self.commitments@[id]));
        let mut calls: Vec<EscrowCall> = Vec::new();
        if amount > 0 {
            calls.push(
                EscrowCall::Transfer(Movement::FromContract { token, to: creator, amount }),
            );
        }
        assert(calls@ =~= payment(token, creator, amount));
        assert(pool_events@ =~= Seq::<PoolEvent>::empty() || completes);
        Ok(Settlement { calls, pool_events, event: MilestoneReleased { id, milestone, amount } })
    }

    /// What recording tuition installment `installment_num` of commitment `id` comes to; or
    /// the first check that fails.
    pub open spec fn installment_plan(
        &self,
        id: u64,
        caller: AccountId,
        installment_num: u32,
        now: u64,
    ) -> Result<
        (Commitment, Map<AccountId, i128>, LiquidityEngine, Seq<PoolEvent>, InstallmentPaid),
        MithaqError,
    > {
        match self.commitment(id) {
            None => Err(MithaqError::CommitmentNotFound),
            Some(c) => if !(c.contract_type is Tuition) {
                Err(MithaqError::NotTuition)
            } else if caller != c.counterparty {
                Err(MithaqError::NotCounterparty)
            } else if c.status != CommitmentStatus::Active {
                Err(MithaqError::NotInGoodStanding)
            } else if installment_num <= match c.extra_data.installment {
                Some(m) => m,
                None => 0,
            } {
                Err(MithaqError::InstallmentAlreadyPaid)
            } else {
                let amount = common::tdiv(c.down_payment as int, INSTALLMENT_COUNT as int) as i128;
                let c2 = Commitment {
                    extra_data: ExtraData { installment: Some(installment_num), ..c.extra_data },
                    status: if installment_num >= INSTALLMENT_COUNT {
                        CommitmentStatus::Completed
                    } else {
                        c.status
                    },
                    ..c
                };
                let event = InstallmentPaid { id, installment: installment_num, amount };
                if installment_num >= INSTALLMENT_COUNT {
                    match rep_add_two(
                        self.reputation@,
                        c.creator,
                        REPUTATION_COMPLETION_REWARD as int,
                        c.counterparty,
                        REPUTATION_COMPLETION_REWARD as int,
                    ) {
                        None => Err(MithaqError::Overflow),
                        Some(rep) => match self.closing(
                            c,
                            c.down_payment,
                            self.total_escrow(),
                            now,
                        ) {
                            None => Err(MithaqError::Overflow),
                            Some((e, evs, _fees)) => Ok((c2, rep, e, evs, event)),
                        },
                    }
                } else {
                    Ok((c2, self.reputation@, self.pool, Seq::empty(), event))
                }
            },
        }
    }

    /// The counterparty of a tuition contract records a later installment, a ninth of the
    /// down payment. The last installment completes the contract, rewards both parties and
    /// settles the pool.
    pub fn pay_installment(&mut self, id: u64, caller: AccountId, installment_num: u32, now: u64) -> (res:
        Result<Settlement<InstallmentPaid>, MithaqError>)
        ensures
            match old(self).installment_plan(id, caller, installment_num, now) {
                Err(e) => res is Err && res->Err_0 == e && *final(self) == *old(self),
                Ok((c, rep, e, evs, event)) => {
                    &&& res is Ok
                    &&& res->Ok_0.calls@ == Seq::<EscrowCall>::empty()
                    &&& res->Ok_0.pool_events@ == evs
                    &&& res->Ok_0.event == event
                    &&& final(self).commitments@ == old(self).commitments@.insert(id, c)
                    &&& final(self).reputation@ == rep
                    &&& final(self).pool == e
                    &&& final(self).config == old(self).config
                    &&& final(self).disputes@ == old(self).disputes@
                },
            },
    {
        let (cid, creator, counterparty, down_payment, percent, contributes, contribution) =
            match self.commitments.get(&id) {
            None => {
                return Err(MithaqError::CommitmentNotFound);
            },
            Some(c) => {
                match &c.contract_type {
                    ContractType::Tuition => {},
                    _ => {
                        return Err(MithaqError::NotTuition);
                    },
                }
                if caller != c.counterparty {
                    return Err(MithaqError::NotCounterparty);
                }
                if c.status != CommitmentStatus::Active {
                    return Err(MithaqError::NotInGoodStanding);
                }
                let current: u32 = match c.extra_data.installment {
                    Some(m) => m,
                    None => 0,
                };
                if installment_num <= current {
                    return Err(MithaqError::InstallmentAlreadyPaid);
                }
                (
                    c.id,
                    c.creator,
                    c.counterparty,
                    c.down_payment,
                    c.platform_fee_percent,
                    c.contributes_to_pool,
                    c.liquidity_contribution,
                )
            },
        };
        let amount = down_payment / 9;
        let completes = installment_num >= INSTALLMENT_COUNT;
        let mut pool_events: Vec<PoolEvent> = Vec::new();
        if completes {
            let (rep_creator, rep_counterparty) = match self.plan_reputation(
                creator,
                REPUTATION_COMPLETION_REWARD,
                counterparty,
                REPUTATION_COMPLETION_REWARD,
            ) {
                Some(x) => x,
                None => {
                    return Err(MithaqError::Overflow);
                },
            };
            let ghost c0 = self.commitments@[id];
            let total_escrow = self.escrow_sum(false, 0, 0, Ghost(self.commitments@));
            let (engine, evs, _fees_paid) = match self.close_contract(
                cid,
                contributes,
                contribution,
                percent,
                down_payment,
                total_escrow,
                now,
                Ghost(c0),
            ) {
                Some(x) => x,
                None => {
                    return Err(MithaqError::Overflow);
                },
            };
            self.reputation.insert(creator, rep_creator);
            self.reputation.insert(counterparty, rep_counterparty);
            self.pool = engine;
            pool_events = evs;
        }
        let ghost before = self.commitments@;
        let mut c = self.commitments.remove(&id).unwrap();
        c.extra_data.installment = Some(installment_num);
        if completes {
            c.status = CommitmentStatus::Completed;
        }
        self.commitments.insert(id, c);
        assert(self.commitments@ =~= before.insert(id, self.commitments@[id]));
        let calls: Vec<EscrowCall> = Vec::new();
        assert(calls@ =~= Seq::<EscrowCall>::empty());
        assert(pool_events@ =~= Seq::<PoolEvent>::empty() || completes);
        Ok(
            Settlement {
                calls,
                pool_events,
                event: InstallmentPaid { id, installment: installment_num, amount },
            },
        )
    }

    /// The pool's figures at time `now`.
    pub fn get_liquidity_pool(&self, now: u64) -> (p: LiquidityPoolState)
        ensures
            p == liquidity::pool_or_default(self.pool.metrics, now),
    {
        pool_state(self.pool.metrics, now)
    }

    /// The funds pooled now.
    pub fn get_total_available_liquidity(&self, now: u64) -> (t: i128)
        ensures
            t == liquidity::pool_or_default(self.pool.metrics, now).total_pooled,
    {
        pool_state(self.pool.metrics, now).total_pooled
    }

    /// The reputation of `user`.
    pub fn get_reputation(&self, user: AccountId) -> (r: i128)
        ensures
            r as int == self.reputation_of(user),
    {
        self.get_reputation_internal(user)
    }

    /// The commitment with identifier `id`, if any.
    pub fn get_commitment_pub(&self, id: u64) -> (r: Option<&Commitment>)
        ensures
            match self.commitment(id) {
                Some(c) => r == Some(&c),
                None => r is None,
            },
    {
        self.commitments.get(&id)
    }

    /// The dispute with identifier `dispute_id`, if any.
    pub fn get_dispute(&self, dispute_id: u64) -> (r: Option<&Dispute>)
        ensures
            match self.dispute(dispute_id) {
                Some(d) => r == Some(&d),
                None => r is None,
            },
    {
        self.disputes.get(&dispute_id)
    }

    /// The number of commitments created so far.
    pub fn get_contract_counter(&self) -> (n: u64)
        ensures
            n == self.counter(),
    {
        match self.config.contract_counter {
            Some(c) => c,
            None => 0,
        }
    }

    /// The number of disputes opened so far.
    pub fn get_dispute_counter(&self) -> (n: u64)
        ensures
            n == self.disputes_opened(),
    {
        match self.config.dispute_counter {
            Some(c) => c,
            None => 0,
        }
    }

    /// The admin, once set.
    pub fn get_contract_admin(&self) -> (r: Option<AccountId>)
        ensures
            r == self.config.admin,
    {
        self.config.admin
    }

    /// The percentages in which a forfeiture is split: platform, safety fund, DAO.
    pub fn get_mithaq_forfeiture_split(&self) -> (r: (i128, i128, i128))
        ensures
            r == (FORFEITURE_PLATFORM_SHARE, FORFEITURE_SAFETY_SHARE, FORFEITURE_DAO_SHARE),
    {
        (FORFEITURE_PLATFORM_SHARE, FORFEITURE_SAFETY_SHARE, FORFEITURE_DAO_SHARE)
    }

    /// The escrow held by the running contracts: `None` when it leaves the range of an
    /// `i128`.
    pub fn get_total_escrow_balance(&self) -> (r: Option<i128>)
        ensures
            r == self.total_escrow(),
    {
        self.escrow_sum(false, 0, 0, Ghost(self.commitments@))
    }
}

} // verus!

verus! {

/// A higher reputation never unlocks a lower loan-to-value limit, and the limits are the
/// four tiers' values.
pub proof fn law_tier_limit_monotone(r1: int, r2: int)
    requires
        r1 <= r2,
    ensures
        tier_limit(r1) <= tier_limit(r2),
        tier_limit(r1) == 0 || tier_limit(r1) == TIER_SILVER_LTV || tier_limit(r1)
            == TIER_GOLD_LTV || tier_limit(r1) == TIER_DIAMOND_LTV,
{
}

/// The platform fee lies between zero and nine percent, never grows with the creator's
/// reputation, and the insurance fee is always one percent.
pub proof fn law_dynamic_fees(r1: int, r2: int, utilization: int)
    requires
        r1 <= r2,
    ensures
        0 <= dynamic_fees(r1, utilization).0 <= 9,
        dynamic_fees(r1, utilization).1 == 1,
        dynamic_fees(r2, utilization).0 <= dynamic_fees(r1, utilization).0,
{
}

/// Reputation never goes below zero: awarding or deducting points keeps every score
/// nonnegative.
pub proof fn law_reputation_nonnegative(
    m: Map<AccountId, i128>,
    a: AccountId,
    pa: int,
    b: AccountId,
    pb: int,
)
    requires
        forall|k: AccountId| m.contains_key(k) ==> m[k] >= 0,
        rep_add_two(m, a, pa, b, pb) is Some,
    ensures
        forall|k: AccountId|
            rep_add_two(m, a, pa, b, pb).unwrap().contains_key(k) ==> rep_add_two(
                m,
                a,
                pa,
                b,
                pb,
            ).unwrap()[k] >= 0,
{
}

/// A settled commitment (completed, released or cancelled) is final: it cannot be accepted,
/// delivered, reviewed, released, disputed, nor advanced by a milestone or an installment,
/// so its escrow is never paid out twice.
pub proof fn law_settled_commitment_is_final(
    s: MithaqContract,
    id: u64,
    party: AccountId,
    doc: Seq<u8>,
    step: u32,
    now: u64,
)
    requires
        s.commitment(id) is Some,
        s.commitment(id).unwrap().status == CommitmentStatus::Completed || s.commitment(
            id,
        ).unwrap().status == CommitmentStatus::AutoReleased || s.commitment(id).unwrap().status
            == CommitmentStatus::Cancelled,
    ensures
        s.accept_plan(id, party, doc, now) is Err,
        s.delivery_error(id, party, now) is Some,
        s.review_plan(id, party, now) is Err,
        s.auto_release_plan(id, now) is Err,
        s.open_dispute_error(id, party) is Some,
        s.milestone_plan(id, party, step, now) is Err,
        s.installment_plan(id, party, step, now) is Err,
{
}

/// Accepting a commitment escrows exactly its down payment and makes it active.
pub proof fn law_acceptance_escrows_down_payment(s: MithaqContract, id: u64, funder: AccountId, doc: Seq<u8>, now: u64)
    requires
        s.accept_plan(id, funder, doc, now) is Ok,
    ensures
        ({
            let c2 = s.accept_plan(id, funder, doc, now)->Ok_0.0;
            &&& c2.escrow_balance == s.commitment(id).unwrap().down_payment
            &&& c2.status == CommitmentStatus::Active
            &&& funder == s.commitment(id).unwrap().counterparty
        }),
{
}

/// A review pays out the whole escrow to the creator and leaves none behind.
pub proof fn law_review_releases_whole_escrow(s: MithaqContract, id: u64, counterparty: AccountId, now: u64)
    requires
        s.review_plan(id, counterparty, now) is Ok,
    ensures
        ({
            let (c2, _, _, _, calls, event) = s.review_plan(id, counterparty, now)->Ok_0;
            let c = s.commitment(id).unwrap();
            &&& c2.escrow_balance == 0
            &&& c2.status == CommitmentStatus::Completed
            &&& event.final_payout == c.escrow_balance
            &&& c.escrow_balance > 0 ==> calls.contains(
                EscrowCall::Transfer(
                    Movement::FromContract {
                        token: s.config.azman_token.unwrap(),
                        to: c.creator,
                        amount: c.escrow_balance,
                    },
                ),
            )
        }),
{
    let (c2, _, _, _, calls, event) = s.review_plan(id, counterparty, now)->Ok_0;
    let c = s.commitment(id).unwrap();
    if c.escrow_balance > 0 {
        assert(calls[1] == EscrowCall::Transfer(
            Movement::FromContract {
                token: s.config.azman_token.unwrap(),
                to: c.creator,
                amount: c.escrow_balance,
            },
        ));
    }
}

/// Milestones only move forward: a released milestone is recorded and exceeds every
/// milestone released before it.
pub proof fn law_milestones_advance(s: MithaqContract, id: u64, caller: AccountId, milestone: u32, now: u64)
    requires
        s.milestone_plan(id, caller, milestone, now) is Ok,
    ensures
        ({
            let c = s.commitment(id).unwrap();
            let c2 = s.milestone_plan(id, caller, milestone, now)->Ok_0.0;
            &&& c2.extra_data.milestone == Some(milestone)
            &&& milestone > match c.extra_data.milestone {
                Some(m) => m,
                None => 0,
            }
        }),
{
}

/// Installments only move forward: a paid installment is recorded and exceeds every
/// installment paid before it.
pub proof fn law_installments_advance(s: MithaqContract, id: u64, caller: AccountId, installment: u32, now: u64)
    requires
        s.installment_plan(id, caller, installment, now) is Ok,
    ensures
        ({
            let c = s.commitment(id).unwrap();
            let c2 = s.installment_plan(id, caller, installment, now)->Ok_0.0;
            &&& c2.extra_data.installment == Some(installment)
            &&& installment > match c.extra_data.installment {
                Some(m) => m,
                None => 0,
            }
        }),
{
}

/// `x`, or zero when `x` is negative: reputation is floored at zero.
pub open spec fn floored(x: int) -> int {
    if x > 0 {
        x
    } else {
        0
    }
}

/// Resolving a dispute penalizes the party that lost, never the winner. When the creator
/// wins, the counterparty loses 10 points for fraud, 5 for breach and 2 for any other
/// penalty (floored at zero) and the creator gains 2; when the counterparty wins, the same
/// holds with the roles swapped. No other account's reputation changes.
pub proof fn law_dispute_penalizes_loser(
    s: MithaqContract,
    dispute_id: u64,
    winner: AccountId,
    penalty_type: Text,
    now: u64,
    other: AccountId,
)
    requires
        s.resolve_plan(dispute_id, winner, penalty_type, now) is Ok,
    ensures
        ({
            let c = s.commitment(s.dispute(dispute_id).unwrap().contract_id).unwrap();
            let rep = s.resolve_plan(dispute_id, winner, penalty_type, now)->Ok_0.2;
            let points: int = if penalty_type@ == fraud_symbol() {
                -10
            } else if penalty_type@ == breach_symbol() {
                -5
            } else {
                -2
            };
            &&& c.creator != c.counterparty && winner == c.creator ==> {
                &&& common::bal(rep, c.counterparty) == floored(
                    s.reputation_of(c.counterparty) + points,
                )
                &&& common::bal(rep, c.creator) == floored(s.reputation_of(c.creator) + 2)
            }
            &&& c.creator != c.counterparty && winner == c.counterparty ==> {
                &&& common::bal(rep, c.creator) == floored(s.reputation_of(c.creator) + points)
                &&& common::bal(rep, c.counterparty) == floored(
                    s.reputation_of(c.counterparty) + 2,
                )
            }
            &&& other != c.creator && other != c.counterparty && other != winner ==> common::bal(
                rep,
                other,
            ) == s.reputation_of(other)
        }),
{
}

/// An automatic release penalizes the counterparty's neglect and rewards the creator: the
/// counterparty's reputation drops by 2 (floored at zero, so it strictly falls whenever it
/// was positive), the creator's rises by 2, and no other account's reputation changes.
pub proof fn law_auto_release_penalizes_neglect(s: MithaqContract, id: u64, now: u64, other: AccountId)
    requires
        s.auto_release_plan(id, now) is Ok,
    ensures
        ({
            let c = s.commitment(id).unwrap();
            let rep = s.auto_release_plan(id, now)->Ok_0.1;
            &&& c.creator != c.counterparty ==> {
                &&& common::bal(rep, c.counterparty) == floored(s.reputation_of(c.counterparty) - 2)
                &&& s.reputation_of(c.counterparty) > 0 ==> common::bal(rep, c.counterparty)
                    < s.reputation_of(c.counterparty)
                &&& common::bal(rep, c.creator) == floored(s.reputation_of(c.creator) + 2)
            }
            &&& other != c.creator && other != c.counterparty ==> common::bal(rep, other)
                == s.reputation_of(other)
        }),
{
}

/// A new commitment's fees are the creator's, not the counterparty's: they are the fees that
/// `calculate_dynamic_fees` quotes for the creator at that time, so they do not depend on the
/// counterparty's reputation. With the pool's utilization between 20 and 80 per cent, the
/// platform fee is 1 per cent for a creator of reputation 100 or more, 4 per cent below 20
/// and 2 per cent otherwise, and the insurance fee is 1 per cent.
pub proof fn law_commitment_fees_follow_creator(
    s: MithaqContract,
    id: u64,
    creator: AccountId,
    counterparty: AccountId,
    params: CommitmentParams,
    now: u64,
)
    ensures
        ({
            let c = s.created(id, creator, counterparty, params, now);
            let rep = s.reputation_of(creator);
            let quote = dynamic_fees(rep, s.utilization(now));
            &&& c.platform_fee_percent as int == quote.0
            &&& c.insurance_fee_percent as int == quote.1
            &&& c.insurance_fee_percent == 1
            &&& 20 <= s.utilization(now) <= 80 ==> c.platform_fee_percent == if rep >= 100 {
                1i128
            } else if rep < 20 {
                4i128
            } else {
                2i128
            }
        }),
{
}

} // verus!
