use mithaq::common::Movement;
use mithaq::governance::{
    parse_vote, GovError, MithaqGovernance, ProposalOutcome, ProposalStatus, VoteChoice,
    DISCUSSION_DURATION, PROPOSAL_FEE, VOTING_DURATION,
};

const ADMIN: u64 = 1;
const MITHAQ: u64 = 2;
const TOKEN: u64 = 3;
const PLATFORM: u64 = 4;
const SAFETY: u64 = 5;
const DAO: u64 = 6;
const PROPOSER: u64 = 10;
const V1: u64 = 20;
const V2: u64 = 21;
const V3: u64 = 22;
const NOW: u64 = 1_000_000;

fn governance() -> MithaqGovernance {
    let mut g = MithaqGovernance::new();
    assert_eq!(g.initialize_governance(ADMIN, MITHAQ, TOKEN, PLATFORM, SAFETY, DAO), Ok(()));
    g
}

fn submitted() -> MithaqGovernance {
    let mut g = governance();
    let (id, fee, event) = g
        .submit_proposal(PROPOSER, b"Title".to_vec(), b"Description".to_vec(), 2 * PROPOSAL_FEE, NOW)
        .unwrap();
    assert_eq!(id, 1);
    assert_eq!(fee, Movement::ToContract { token: TOKEN, from: PROPOSER, amount: PROPOSAL_FEE });
    assert_eq!(event.id, 1);
    assert_eq!(event.title, b"Title".to_vec());
    assert_eq!(event.fee_deducted, PROPOSAL_FEE);
    g
}

fn open_voting(g: &mut MithaqGovernance) {
    g.proposals.get_mut(&1).unwrap().status = ProposalStatus::Voting;
}

#[test]
fn vote_symbols() {
    assert_eq!(parse_vote(&b"YES".to_vec()), Some(VoteChoice::Yes));
    assert_eq!(parse_vote(&b"NO".to_vec()), Some(VoteChoice::No));
    assert_eq!(parse_vote(&b"yes".to_vec()), None);
    assert_eq!(parse_vote(&b"MAYBE".to_vec()), None);
}

#[test]
fn gov_initialize_twice_is_refused() {
    let mut g = governance();
    assert_eq!(
        g.initialize_governance(V1, MITHAQ, TOKEN, PLATFORM, SAFETY, DAO),
        Err(GovError::AlreadyInitialized)
    );
    assert_eq!(g.get_admin_address(), Some(ADMIN));
    assert_eq!(g.get_proposal_counter(), 0);
    assert!(!g.is_election_active());
}

#[test]
fn submission_schedules_phases() {
    let g = submitted();
    let p = g.get_proposal_details(1).unwrap();
    assert_eq!(p.status, ProposalStatus::Discussion);
    assert_eq!(p.discussion_end, NOW + DISCUSSION_DURATION);
    assert_eq!(p.voting_start, NOW + DISCUSSION_DURATION);
    assert_eq!(p.voting_end, NOW + DISCUSSION_DURATION + VOTING_DURATION);
    assert_eq!(g.get_proposal_counter(), 1);
}

#[test]
fn submission_errors() {
    let mut g = governance();
    assert_eq!(
        g.submit_proposal(PROPOSER, Vec::new(), b"d".to_vec(), PROPOSAL_FEE, NOW).err(),
        Some(GovError::MissingText)
    );
    assert_eq!(
        g.submit_proposal(PROPOSER, b"t".to_vec(), b"d".to_vec(), PROPOSAL_FEE - 1, NOW).err(),
        Some(GovError::InsufficientBalance)
    );
    let mut none = MithaqGovernance::new();
    assert_eq!(
        none.submit_proposal(PROPOSER, b"t".to_vec(), b"d".to_vec(), PROPOSAL_FEE, NOW).err(),
        Some(GovError::TokenNotSet)
    );
    assert_eq!(
        g.submit_proposal(PROPOSER, b"t".to_vec(), b"d".to_vec(), PROPOSAL_FEE, u64::MAX).err(),
        Some(GovError::Overflow)
    );
    assert_eq!(g.get_proposal_counter(), 0);
}

#[test]
fn executing_during_discussion_forfeits_fee() {
    let mut g = submitted();
    match g.execute_proposal(1, NOW + 1).unwrap() {
        ProposalOutcome::Rejected { rejection, platform, safety, dao, .. } => {
            assert_eq!(rejection.platform_share, 50_000_000);
            assert_eq!(rejection.safety_fund_share, 40_000_000);
            assert_eq!(rejection.dao_treasury_share, 10_000_000);
            assert_eq!(platform, Movement::FromContract { token: TOKEN, to: PLATFORM, amount: 50_000_000 });
            assert_eq!(safety, Movement::FromContract { token: TOKEN, to: SAFETY, amount: 40_000_000 });
            assert_eq!(dao, Movement::FromContract { token: TOKEN, to: DAO, amount: 10_000_000 });
        },
        _ => panic!("expected a rejection"),
    }
    let p = g.get_proposal_details(1).unwrap();
    assert_eq!(p.status, ProposalStatus::Rejected);
    assert!(p.executed);
    assert_eq!(g.execute_proposal(1, NOW + 2).err(), Some(GovError::AlreadyExecuted));
}

#[test]
fn executing_after_discussion_is_refused() {
    let mut g = submitted();
    assert_eq!(
        g.execute_proposal(1, NOW + DISCUSSION_DURATION).err(),
        Some(GovError::MovedToVoting)
    );
    assert_eq!(g.get_proposal_details(1).unwrap().status, ProposalStatus::Discussion);
    assert_eq!(g.execute_proposal(7, NOW).err(), Some(GovError::ProposalNotFound));
}

#[test]
fn voting_once_per_account() {
    let mut g = submitted();
    let start = NOW + DISCUSSION_DURATION;
    assert_eq!(g.vote(V1, 1, &b"YES".to_vec(), start).err(), Some(GovError::NotInVotingPhase));
    open_voting(&mut g);
    let cast = g.vote(V1, 1, &b"YES".to_vec(), start).unwrap();
    assert_eq!(cast.vote, VoteChoice::Yes);
    assert!(g.has_voted(1, V1));
    assert!(!g.has_voted(1, V2));
    assert_eq!(g.vote(V1, 1, &b"NO".to_vec(), start).err(), Some(GovError::AlreadyVoted));
    assert_eq!(g.vote(V2, 1, &b"MAYBE".to_vec(), start).err(), Some(GovError::InvalidVote));
    assert_eq!(g.vote(V2, 9, &b"NO".to_vec(), start).err(), Some(GovError::ProposalNotFound));
    assert_eq!(
        g.vote(V2, 1, &b"NO".to_vec(), start + VOTING_DURATION + 1).err(),
        Some(GovError::VotingEnded)
    );
    g.vote(V2, 1, &b"NO".to_vec(), start).unwrap();
    let p = g.get_proposal_details(1).unwrap();
    assert_eq!((p.votes_yes, p.votes_no, p.total_voters), (1, 1, 2));
}

#[test]
fn approved_proposal_refunds_fee() {
    let mut g = submitted();
    open_voting(&mut g);
    let start = NOW + DISCUSSION_DURATION;
    g.vote(V1, 1, &b"YES".to_vec(), start).unwrap();
    g.vote(V2, 1, &b"YES".to_vec(), start).unwrap();
    g.vote(V3, 1, &b"NO".to_vec(), start).unwrap();
    assert_eq!(g.execute_proposal(1, start + 1).err(), Some(GovError::VotingActive));
    match g.execute_proposal(1, start + VOTING_DURATION).unwrap() {
        ProposalOutcome::Approved { approval, refund, .. } => {
            assert_eq!(approval.refund_amount, PROPOSAL_FEE);
            assert_eq!(refund, Movement::FromContract { token: TOKEN, to: PROPOSER, amount: PROPOSAL_FEE });
        },
        _ => panic!("expected an approval"),
    }
    assert_eq!(g.get_proposal_details(1).unwrap().status, ProposalStatus::Approved);
}

#[test]
fn fifty_percent_is_rejected() {
    let mut g = submitted();
    open_voting(&mut g);
    let start = NOW + DISCUSSION_DURATION;
    g.vote(V1, 1, &b"YES".to_vec(), start).unwrap();
    g.vote(V2, 1, &b"NO".to_vec(), start).unwrap();
    match g.execute_proposal(1, start + VOTING_DURATION).unwrap() {
        ProposalOutcome::Rejected { .. } => {},
        _ => panic!("expected a rejection"),
    }
}

#[test]
fn rejection_needs_treasuries() {
    let mut g = submitted();
    g.config.dao_treasury = None;
    assert_eq!(g.execute_proposal(1, NOW).err(), Some(GovError::DaoTreasuryNotSet));
    assert!(!g.get_proposal_details(1).unwrap().executed);
    g.config.safety_fund = None;
    assert_eq!(g.execute_proposal(1, NOW).err(), Some(GovError::SafetyFundNotSet));
    g.config.platform_treasury = None;
    assert_eq!(g.execute_proposal(1, NOW).err(), Some(GovError::PlatformTreasuryNotSet));
    assert!(!g.get_proposal_details(1).unwrap().executed);
}

#[test]
fn election_without_end_time() {
    let mut g = governance();
    g.config.election_active = Some(true);
    assert_eq!(g.vote_for_dao_member(V1, V2, NOW), Err(GovError::ElectionEndNotSet));
    assert_eq!(g.finalize_dao_election(ADMIN, NOW), Err(GovError::ElectionEndNotSet));
    assert!(g.dao_members.is_empty());
    assert!(g.is_election_active());
}

#[test]
fn dao_election_cycle() {
    let mut g = governance();
    assert_eq!(g.vote_for_dao_member(V1, V2, NOW).err(), Some(GovError::NoActiveElection));
    assert_eq!(g.start_dao_election(V1, NOW).err(), Some(GovError::Unauthorized));
    let started = g.start_dao_election(ADMIN, NOW).unwrap();
    assert_eq!((started.start_time, started.end_time), (NOW, NOW + 604_800));
    assert!(g.is_election_active());
    assert_eq!(g.get_election_end_time(), NOW + 604_800);
    assert_eq!(g.start_dao_election(ADMIN, NOW).err(), Some(GovError::ElectionInProgress));
    assert_eq!(g.vote_for_dao_member(V1, V2, NOW), Ok(()));
    assert_eq!(g.vote_for_dao_member(V1, V2, NOW), Err(GovError::AlreadyVotedForCandidate));
    assert_eq!(g.vote_for_dao_member(V3, V2, NOW), Ok(()));
    assert_eq!(g.dao_members.get(&V2), Some(&2));
    assert_eq!(g.vote_for_dao_member(V1, V3, NOW + 604_801), Err(GovError::ElectionEnded));
    assert_eq!(g.finalize_dao_election(ADMIN, NOW + 1), Err(GovError::ElectionNotEnded));
    assert_eq!(g.finalize_dao_election(ADMIN, NOW + 604_800), Ok(()));
    assert!(!g.is_election_active());
    assert_eq!(g.finalize_dao_election(ADMIN, NOW + 604_800), Err(GovError::NoActiveElection));
}

#[test]
fn dao_disbursement_needs_members() {
    let mut g = governance();
    g.start_dao_election(ADMIN, NOW).unwrap();
    for m in [V1, V2, V3] {
        g.vote_for_dao_member(ADMIN, m, NOW).unwrap();
    }
    assert_eq!(g.dao_treasury_disburse(1, 100, PROPOSER, &vec![V1, V2], 1000), Err(GovError::InsufficientSignatures));
    assert_eq!(g.dao_treasury_disburse(1, 100, PROPOSER, &vec![V1, V2, PROPOSER], 1000), Err(GovError::NotDaoMember));
    assert_eq!(
        g.dao_treasury_disburse(1, 100, PROPOSER, &vec![V1, V2, V3], 99),
        Err(GovError::InsufficientDaoTreasury)
    );
    assert_eq!(
        g.dao_treasury_disburse(1, 100, PROPOSER, &vec![V1, V2, V3], 1000),
        Ok(Movement::FromContract { token: TOKEN, to: PROPOSER, amount: 100 })
    );
    assert_eq!(g.get_dao_member_count(), 5);
    assert_eq!(g.get_dao_multisig_threshold(), 3);
}

#[test]
fn gov_admin_updates() {
    let mut g = governance();
    assert_eq!(g.update_gov_mithaq_contract(V1, V2), Err(GovError::Unauthorized));
    assert_eq!(g.update_gov_mithaq_contract(ADMIN, V2), Ok(()));
    assert_eq!(g.config.mithaq_contract, Some(V2));
    assert_eq!(g.update_gov_azman_token(ADMIN, V2), Ok(()));
    assert_eq!(g.config.azman_token, Some(V2));
    assert_eq!(g.update_gov_platform_treasury(ADMIN, V2), Ok(()));
    assert_eq!(g.update_gov_safety_fund(ADMIN, V2), Ok(()));
    assert_eq!(g.update_gov_dao_treasury(ADMIN, V2), Ok(()));
    assert_eq!(g.config.dao_treasury, Some(V2));
    assert_eq!(g.transfer_governance_admin(ADMIN, V3), Ok(()));
    assert_eq!(g.get_admin_address(), Some(V3));
    assert_eq!(g.transfer_governance_admin(ADMIN, V3), Err(GovError::Unauthorized));
    let mut none = MithaqGovernance::new();
    assert_eq!(none.start_dao_election(ADMIN, NOW).err(), Some(GovError::AdminNotSet));
    assert_eq!(g.get_forfeiture_split(), (50, 40, 10));
}
