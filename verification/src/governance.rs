//! Governance: fee-backed proposals with a discussion and a voting phase,
//! the 50/40/10 split of forfeited fees, and the election and multisig
//! disbursements of the DAO treasury's members.
use crate::common;
use crate::common::{slot_of, text_matches, AccountId, Movement, Text};
use vstd::prelude::*;

verus! {

broadcast use vstd::std_specs::hash::group_hash_axioms;

/// Fee that a proposer deposits with a proposal (ten whole tokens).
pub const PROPOSAL_FEE: i128 = 10_0000000;
/// Length of a proposal's discussion phase in seconds.
pub const DISCUSSION_DURATION: u64 = 172_800;
/// Length of a proposal's voting phase in seconds.
pub const VOTING_DURATION: u64 = 604_800;
/// Percentage of yes votes needed for approval.
pub const APPROVAL_THRESHOLD: i128 = 60;
/// Percentage of a forfeited fee that goes to the platform treasury.
pub const FORFEITURE_PLATFORM_SHARE: i128 = 50;
/// Percentage of a forfeited fee that goes to the safety fund.
pub const FORFEITURE_SAFETY_SHARE: i128 = 40;
/// Percentage of a forfeited fee that goes to the DAO treasury.
pub const FORFEITURE_DAO_SHARE: i128 = 10;
/// Number of seats of the DAO treasury.
pub const DAO_MEMBER_COUNT: u32 = 5;
/// Length of a DAO election in seconds.
pub const DAO_ELECTION_DURATION: u64 = 604_800;
/// Length of a DAO member's term in seconds.
pub const DAO_TERM_DURATION: u64 = 15_768_000;
/// Votes a DAO candidate needs to win a seat.
pub const DAO_MIN_VOTES_TO_WIN: i128 = 10;
/// Signatures of DAO members needed to disburse from the DAO treasury.
pub const DAO_MULTISIG_THRESHOLD: u32 = 3;

/// Why governance refused a request. A refused request changes nothing.
#[derive(Clone, Copy, Debug, PartialEq, Eq, Structural)]
pub enum GovError {
    AlreadyInitialized,
    AdminNotSet,
    TokenNotSet,
    PlatformTreasuryNotSet,
    SafetyFundNotSet,
    DaoTreasuryNotSet,
    Unauthorized,
    MissingText,
    InsufficientBalance,
    InvalidVote,
    ProposalNotFound,
    NotInVotingPhase,
    VotingEnded,
    AlreadyVoted,
    AlreadyExecuted,
    /// The discussion phase is over: the proposal has to go through voting first.
    MovedToVoting,
    VotingActive,
    ElectionInProgress,
    NoActiveElection,
    ElectionEndNotSet,
    ElectionEnded,
    ElectionNotEnded,
    AlreadyVotedForCandidate,
    InsufficientSignatures,
    NotDaoMember,
    InsufficientDaoTreasury,
    /// A figure would leave its integer range.
    Overflow,
}

/// The phase a proposal is in.
#[derive(Clone, Copy, Debug, PartialEq, Eq, Structural)]
pub enum ProposalStatus {
    Discussion,
    Voting,
    Approved,
    Rejected,
    Expired,
}

/// A ballot on a proposal.
#[derive(Clone, Copy, Debug, PartialEq, Eq, Structural)]
pub enum VoteChoice {
    Yes,
    No,
}

/// The symbol of a yes vote.
pub open spec fn yes_symbol() -> Seq<u8> {
    seq![89u8, 69u8, 83u8]
}

/// The symbol of a no vote.
pub open spec fn no_symbol() -> Seq<u8> {
    seq![78u8, 79u8]
}

/// The ballot that a vote symbol stands for, if any.
pub open spec fn choice_of(symbol: Seq<u8>) -> Option<VoteChoice> {
    if symbol == yes_symbol() {
        Some(VoteChoice::Yes)
    } else if symbol == no_symbol() {
        Some(VoteChoice::No)
    } else {
        None
    }
}

/// Reads a vote symbol: `YES` or `NO`.
pub fn parse_vote(symbol: &Text) -> (c: Option<VoteChoice>)
    ensures
        c == choice_of(symbol@),
{
    let yes: [u8; 3] = [89, 69, 83];
    let no: [u8; 2] = [78, 79];
    assert(yes@ =~= yes_symbol());
    assert(no@ =~= no_symbol());
    if text_matches(symbol, &yes) {
        Some(VoteChoice::Yes)
    } else if text_matches(symbol, &no) {
        Some(VoteChoice::No)
    } else {
        None
    }
}

/// A proposal and its tally.
pub struct Proposal {
    pub id: u64,
    pub proposer: AccountId,
    pub title: Text,
    pub description: Text,
    pub status: ProposalStatus,
    pub created_at: u64,
    pub discussion_end: u64,
    pub voting_start: u64,
    pub voting_end: u64,
    pub votes_yes: i128,
    pub votes_no: i128,
    pub total_voters: i128,
    pub executed: bool,
}

/// A recorded ballot.
#[derive(Clone, Copy, Debug, PartialEq, Eq, Structural)]
pub struct VoteRecord {
    pub proposal_id: u64,
    pub voter: AccountId,
    pub vote: VoteChoice,
    pub voted_at: u64,
}

/// A seat of the DAO treasury.
pub struct DAOMemberRecord {
    pub member: AccountId,
    pub arbitrator_level: Text,
    pub votes_received: i128,
    pub elected_at: u64,
    pub term_expires: u64,
}

/// Published when a proposal is submitted.
pub struct ProposalSubmitted {
    pub id: u64,
    pub proposer: AccountId,
    pub title: Text,
    pub fee_deducted: i128,
}

/// Published when a ballot is cast.
#[derive(Clone, Copy, Debug, PartialEq, Eq, Structural)]
pub struct VoteCast {
    pub proposal_id: u64,
    pub voter: AccountId,
    pub vote: VoteChoice,
}

/// Published when a proposal is approved and its fee refunded.
#[derive(Clone, Copy, Debug, PartialEq, Eq, Structural)]
pub struct ProposalApproved {
    pub id: u64,
    pub proposer: AccountId,
    pub refund_amount: i128,
}

/// Published when a proposal is rejected and its fee forfeited.
#[derive(Clone, Copy, Debug, PartialEq, Eq, Structural)]
pub struct ProposalRejected {
    pub id: u64,
    pub proposer: AccountId,
    pub forfeited_amount: i128,
    pub platform_share: i128,
    pub safety_fund_share: i128,
    pub dao_treasury_share: i128,
}

/// Published when a proposal changes phase.
#[derive(Clone, Copy, Debug, PartialEq, Eq, Structural)]
pub struct ProposalStatusChanged {
    pub id: u64,
    pub old_status: ProposalStatus,
    pub new_status: ProposalStatus,
}

/// Published when a DAO member is elected.
#[derive(Clone, Copy, Debug, PartialEq, Eq, Structural)]
pub struct DAOMemberElected {
    pub member: AccountId,
    pub votes_received: i128,
    pub term_expires: u64,
}

/// Published when a DAO election starts.
#[derive(Clone, Copy, Debug, PartialEq, Eq, Structural)]
pub struct DAOElectionStarted {
    pub start_time: u64,
    pub end_time: u64,
}

/// What executing a proposal settles: the events to publish and the payments to make.
#[derive(Clone, Copy, Debug, PartialEq, Eq, Structural)]
pub enum ProposalOutcome {
    /// The fee goes back to the proposer.
    Approved { approval: ProposalApproved, status: ProposalStatusChanged, refund: Movement },
    /// The fee is split between the platform treasury, the safety fund and the DAO treasury.
    Rejected {
        rejection: ProposalRejected,
        status: ProposalStatusChanged,
        platform: Movement,
        safety: Movement,
        dao: Movement,
    },
}

/// The governance contract's configuration entries, each absent until written.
#[derive(Clone, Copy, Debug, PartialEq, Eq, Structural)]
pub struct GovConfig {
    pub admin: Option<AccountId>,
    pub mithaq_contract: Option<AccountId>,
    pub azman_token: Option<AccountId>,
    pub platform_treasury: Option<AccountId>,
    pub safety_fund: Option<AccountId>,
    pub dao_treasury: Option<AccountId>,
    pub proposal_counter: Option<u64>,
    pub election_active: Option<bool>,
    pub election_start: Option<u64>,
    pub election_end: Option<u64>,
}

/// The whole state of the governance contract.
pub struct MithaqGovernance {
    pub config: GovConfig,
    pub proposals: std::collections::HashMap<u64, Proposal>,
    /// Ballots on proposals, under the slot of (proposal, voter).
    pub votes: std::collections::HashMap<u128, VoteRecord>,
    /// Votes received by each DAO candidate; a candidate with an entry counts as a member.
    pub dao_members: std::collections::HashMap<AccountId, i128>,
    /// DAO ballots, under the slot of (voter, candidate).
    pub dao_ballots: std::collections::HashMap<u128, bool>,
}

/// The forfeited fee's share for the platform treasury.
pub open spec fn platform_share() -> int {
    PROPOSAL_FEE * FORFEITURE_PLATFORM_SHARE / 100
}

/// The forfeited fee's share for the safety fund.
pub open spec fn safety_share() -> int {
    PROPOSAL_FEE * FORFEITURE_SAFETY_SHARE / 100
}

/// The forfeited fee's share for the DAO treasury.
pub open spec fn dao_share() -> int {
    PROPOSAL_FEE * FORFEITURE_DAO_SHARE / 100
}

/// Whether the tally of `p` approves it: some votes, and a yes percentage (rounded toward
/// zero) of at least the threshold.
pub open spec fn approves(p: Proposal) -> bool {
    let total = p.votes_yes + p.votes_no;
    total > 0 && common::tdiv(p.votes_yes * 100, total) >= APPROVAL_THRESHOLD
}

/// The check that a request comes from the stored admin.
pub open spec fn admin_error(stored: Option<AccountId>, caller: AccountId) -> Option<GovError> {
    match stored {
        None => Some(GovError::AdminNotSet),
        Some(a) => if a != caller {
            Some(GovError::Unauthorized)
        } else {
            None
        },
    }
}

fn check_admin(stored: Option<AccountId>, caller: AccountId) -> (r: Option<GovError>)
    ensures
        r == admin_error(stored, caller),
{
    match stored {
        None => Some(GovError::AdminNotSet),
        Some(a) => if a != caller {
            Some(GovError::Unauthorized)
        } else {
            None
        },
    }
}

impl MithaqGovernance {
    /// The proposal with identifier `id`, if any.
    pub open spec fn proposal(&self, id: u64) -> Option<Proposal> {
        if self.proposals@.contains_key(id) {
            Some(self.proposals@[id])
        } else {
            None
        }
    }

    /// The proposal counter: zero until written.
    pub open spec fn counter(&self) -> int {
        match self.config.proposal_counter {
            Some(c) => c as int,
            None => 0,
        }
    }

    /// Whether a DAO election is running.
    pub open spec fn election_running(&self) -> bool {
        match self.config.election_active {
            Some(b) => b,
            None => false,
        }
    }

    /// Whether `voter` has voted on proposal `id`.
    pub open spec fn voted(&self, id: u64, voter: AccountId) -> bool {
        self.votes@.contains_key(common::pair_slot(id, voter))
    }

    /// Whether `voter` has voted for `candidate` in a DAO election.
    pub open spec fn ballot_cast(&self, voter: AccountId, candidate: AccountId) -> bool {
        self.dao_ballots@.contains_key(common::pair_slot(voter, candidate))
    }

    /// Votes received by `candidate`: zero without an entry.
    pub open spec fn member_votes(&self, candidate: AccountId) -> int {
        common::bal(self.dao_members@, candidate)
    }

    /// Only the configuration differs between the two states.
    pub open spec fn same_records(&self, other: &MithaqGovernance) -> bool {
        &&& self.proposals@ == other.proposals@
        &&& self.votes@ == other.votes@
        &&& self.dao_members@ == other.dao_members@
        &&& self.dao_ballots@ == other.dao_ballots@
    }

    /// A governance contract whose storage holds nothing yet.
    pub fn new() -> (g: MithaqGovernance)
        ensures
            g.config == (GovConfig {
                admin: None,
                mithaq_contract: None,
                azman_token: None,
                platform_treasury: None,
                safety_fund: None,
                dao_treasury: None,
                proposal_counter: None,
                election_active: None,
                election_start: None,
                election_end: None,
            }),
            g.proposals@ == Map::<u64, Proposal>::empty(),
            g.votes@ == Map::<u128, VoteRecord>::empty(),
            g.dao_members@ == Map::<AccountId, i128>::empty(),
            g.dao_ballots@ == Map::<u128, bool>::empty(),
    {
        MithaqGovernance {
            config: GovConfig {
                admin: None,
                mithaq_contract: None,
                azman_token: None,
                platform_treasury: None,
                safety_fund: None,
                dao_treasury: None,
                proposal_counter: None,
                election_active: None,
                election_start: None,
                election_end: None,
            },
            proposals: std::collections::HashMap::new(),
            votes: std::collections::HashMap::new(),
            dao_members: std::collections::HashMap::new(),
            dao_ballots: std::collections::HashMap::new(),
        }
    }

    /// Sets up the contract's admin and the accounts it pays.
    pub fn initialize_governance(
        &mut self,
        admin: AccountId,
        mithaq_contract: AccountId,
        azman_token: AccountId,
        platform_treasury: AccountId,
        safety_fund: AccountId,
        dao_treasury: AccountId,
    ) -> (res: Result<(), GovError>)
        ensures
            old(self).config.admin is Some ==> res == Err::<(), GovError>(
                GovError::AlreadyInitialized,
            ) && *final(self) == *old(self),
            old(self).config.admin is None ==> {
                &&& res == Ok::<(), GovError>(())
                &&& final(self).config == (GovConfig {
                    admin: Some(admin),
                    mithaq_contract: Some(mithaq_contract),
                    azman_token: Some(azman_token),
                    platform_treasury: Some(platform_treasury),
                    safety_fund: Some(safety_fund),
                    dao_treasury: Some(dao_treasury),
                    proposal_counter: Some(0),
                    election_active: Some(false),
                    ..old(self).config
                })
                &&& final(self).same_records(old(self))
            },
    {
        if self.config.admin.is_some() {
            return Err(GovError::AlreadyInitialized);
        }
        self.config = GovConfig {
            admin: Some(admin),
            mithaq_contract: Some(mithaq_contract),
            azman_token: Some(azman_token),
            platform_treasury: Some(platform_treasury),
            safety_fund: Some(safety_fund),
            dao_treasury: Some(dao_treasury),
            proposal_counter: Some(0),
            election_active: Some(false),
            ..self.config
        };
        Ok(())
    }

    /// The first check that a submission fails.
    pub open spec fn submit_error(&self, title: Seq<u8>, description: Seq<u8>, proposer_balance: i128, now: u64) -> Option<
        GovError,
    > {
        if title.len() == 0 || description.len() == 0 {
            Some(GovError::MissingText)
        } else if self.config.azman_token is None {
            Some(GovError::TokenNotSet)
        } else if proposer_balance < PROPOSAL_FEE {
            Some(GovError::InsufficientBalance)
        } else if self.counter() + 1 > u64::MAX || now + DISCUSSION_DURATION + VOTING_DURATION
            > u64::MAX {
            Some(GovError::Overflow)
        } else {
            None
        }
    }

    /// Submits a proposal, taking the proposal fee from the proposer. `proposer_balance` is
    /// the proposer's token balance. The proposal is discussed first and voted on after.
    /// Returns the new proposal's identifier, the fee to collect and the event to publish.
    pub fn submit_proposal(
        &mut self,
        proposer: AccountId,
        title: Text,
        description: Text,
        proposer_balance: i128,
        now: u64,
    ) -> (res: Result<(u64, Movement, ProposalSubmitted), GovError>)
        ensures
            match old(self).submit_error(title@, description@, proposer_balance, now) {
                Some(e) => res is Err && res->Err_0 == e && *final(self) == *old(self),
                None => {
                    let id = (old(self).counter() + 1) as u64;
                    &&& res is Ok
                    &&& res->Ok_0.0 == id
                    &&& res->Ok_0.1 == Movement::ToContract {
                        token: old(self).config.azman_token.unwrap(),
                        from: proposer,
                        amount: PROPOSAL_FEE,
                    }
                    &&& res->Ok_0.2.id == id
                    &&& res->Ok_0.2.proposer == proposer
                    &&& res->Ok_0.2.title@ == title@
                    &&& res->Ok_0.2.fee_deducted == PROPOSAL_FEE
                    &&& final(self).config == (GovConfig {
                        proposal_counter: Some(id),
                        ..old(self).config
                    })
                    &&& final(self).proposals@ == old(self).proposals@.insert(
                        id,
                        Proposal {
                            id,
                            proposer,
                            title,
                            description,
                            status: ProposalStatus::Discussion,
                            created_at: now,
                            discussion_end: (now + DISCUSSION_DURATION) as u64,
                            voting_start: (now + DISCUSSION_DURATION) as u64,
                            voting_end: (now + DISCUSSION_DURATION + VOTING_DURATION) as u64,
                            votes_yes: 0,
                            votes_no: 0,
                            total_voters: 0,
                            executed: false,
                        },
                    )
                    &&& final(self).votes@ == old(self).votes@
                    &&& final(self).dao_members@ == old(self).dao_members@
                    &&& final(self).dao_ballots@ == old(self).dao_ballots@
                },
            },
    {
        if title.len() == 0 || description.len() == 0 {
            return Err(GovError::MissingText);
        }
        let token = match self.config.azman_token {
            Some(t) => t,
            None => {
                return Err(GovError::TokenNotSet);
            },
        };
        if proposer_balance < PROPOSAL_FEE {
            return Err(GovError::InsufficientBalance);
        }
        let previous: u64 = match self.config.proposal_counter {
            Some(c) => c,
            None => 0,
        };
        let id = match previous.checked_add(1) {
            Some(x) => x,
            None => {
                return Err(GovError::Overflow);
            },
        };
        let discussion_end = match now.checked_add(DISCUSSION_DURATION) {
            Some(x) => x,
            None => {
                return Err(GovError::Overflow);
            },
        };
        let voting_start = discussion_end;
        let voting_end = match voting_start.checked_add(VOTING_DURATION) {
            Some(x) => x,
            None => {
                return Err(GovError::Overflow);
            },
        };
        self.config.proposal_counter = Some(id);
        let event = ProposalSubmitted {
            id,
            proposer,
            title: common::copy_text(&title),
            fee_deducted: PROPOSAL_FEE,
        };
        let proposal = Proposal {
            id,
            proposer,
            title,
            description,
            status: ProposalStatus::Discussion,
            created_at: now,
            discussion_end,
            voting_start,
            voting_end,
            votes_yes: 0,
            votes_no: 0,
            total_voters: 0,
            executed: false,
        };
        self.proposals.insert(id, proposal);
        Ok((id, Movement::ToContract { token, from: proposer, amount: PROPOSAL_FEE }, event))
    }

    /// The first check that a vote fails.
    pub open spec fn vote_error(&self, voter: AccountId, proposal_id: u64, vote_type: Seq<u8>, now: u64) -> Option<
        GovError,
    > {
        if choice_of(vote_type) is None {
            Some(GovError::InvalidVote)
        } else if self.proposal(proposal_id) is None {
            Some(GovError::ProposalNotFound)
        } else if self.proposal(proposal_id).unwrap().status != ProposalStatus::Voting {
            Some(GovError::NotInVotingPhase)
        } else if now > self.proposal(proposal_id).unwrap().voting_end {
            Some(GovError::VotingEnded)
        } else if self.voted(proposal_id, voter) {
            Some(GovError::AlreadyVoted)
        } else {
            let p = self.proposal(proposal_id).unwrap();
            if (choice_of(vote_type) == Some(VoteChoice::Yes) && p.votes_yes + 1 > i128::MAX) || (
            choice_of(vote_type) == Some(VoteChoice::No) && p.votes_no + 1 > i128::MAX)
                || p.total_voters + 1 > i128::MAX {
                Some(GovError::Overflow)
            } else {
                None
            }
        }
    }

    /// The proposal after one more ballot.
    pub open spec fn tallied(p: Proposal, choice: VoteChoice) -> Proposal {
        Proposal {
            votes_yes: if choice == VoteChoice::Yes {
                (p.votes_yes + 1) as i128
            } else {
                p.votes_yes
            },
            votes_no: if choice == VoteChoice::No {
                (p.votes_no + 1) as i128
            } else {
                p.votes_no
            },
            total_voters: (p.total_voters + 1) as i128,
            ..p
        }
    }

    /// `voter` casts a ballot (`YES` or `NO`) on a proposal in its voting phase, once.
    pub fn vote(&mut self, voter: AccountId, proposal_id: u64, vote_type: &Text, now: u64) -> (res:
        Result<VoteCast, GovError>)
        ensures
            match old(self).vote_error(voter, proposal_id, vote_type@, now) {
                Some(e) => res == Err::<VoteCast, GovError>(e) && *final(self) == *old(self),
                None => {
                    let choice = choice_of(vote_type@).unwrap();
                    &&& res == Ok::<VoteCast, GovError>(VoteCast { proposal_id, voter, vote: choice })
                    &&& final(self).votes@ == old(self).votes@.insert(
                        common::pair_slot(proposal_id, voter),
                        VoteRecord { proposal_id, voter, vote: choice, voted_at: now },
                    )
                    &&& final(self).proposals@ == old(self).proposals@.insert(
                        proposal_id,
                        Self::tallied(old(self).proposal(proposal_id).unwrap(), choice),
                    )
                    &&& final(self).config == old(self).config
                    &&& final(self).dao_members@ == old(self).dao_members@
                    &&& final(self).dao_ballots@ == old(self).dao_ballots@
                },
            },
    {
        let choice = match parse_vote(vote_type) {
            Some(c) => c,
            None => {
                return Err(GovError::InvalidVote);
            },
        };
        let (yes, no, total) = match self.proposals.get(&proposal_id) {
            None => {
                return Err(GovError::ProposalNotFound);
            },
            Some(p) => {
                if p.status != ProposalStatus::Voting {
                    return Err(GovError::NotInVotingPhase);
                }
                if now > p.voting_end {
                    return Err(GovError::VotingEnded);
                }
                (p.votes_yes, p.votes_no, p.total_voters)
            },
        };
        let key = slot_of(proposal_id, voter);
        if self.votes.contains_key(&key) {
            return Err(GovError::AlreadyVoted);
        }
        let (new_yes, new_no) = if choice == VoteChoice::Yes {
            match yes.checked_add(1) {
                Some(x) => (x, no),
                None => {
                    return Err(GovError::Overflow);
                },
            }
        } else {
            match no.checked_add(1) {
                Some(x) => (yes, x),
                None => {
                    return Err(GovError::Overflow);
                },
            }
        };
        let new_total = match total.checked_add(1) {
            Some(x) => x,
            None => {
                return Err(GovError::Overflow);
            },
        };
        self.votes.insert(key, VoteRecord { proposal_id, voter, vote: choice, voted_at: now });
        let mut p = self.proposals.remove(&proposal_id).unwrap();
        p.votes_yes = new_yes;
        p.votes_no = new_no;
        p.total_voters = new_total;
        self.proposals.insert(proposal_id, p);
        Ok(VoteCast { proposal_id, voter, vote: choice })
    }

    /// The first check that executing a proposal fails.
    pub open spec fn execute_error(&self, proposal_id: u64, now: u64) -> Option<GovError> {
        match self.proposal(proposal_id) {
            None => Some(GovError::ProposalNotFound),
            Some(p) => if p.executed {
                Some(GovError::AlreadyExecuted)
            } else if p.status == ProposalStatus::Discussion && now >= p.voting_start {
                Some(GovError::MovedToVoting)
            } else if p.status == ProposalStatus::Voting && now < p.voting_end {
                Some(GovError::VotingActive)
            } else if !common::fits_i128(p.votes_yes + p.votes_no) || (p.votes_yes + p.votes_no > 0
                && !common::fits_i128(p.votes_yes * 100)) {
                Some(GovError::Overflow)
            } else if approves(p) {
                if self.config.azman_token is None {
                    Some(GovError::TokenNotSet)
                } else {
                    None
                }
            } else if self.config.platform_treasury is None {
                Some(GovError::PlatformTreasuryNotSet)
            } else if self.config.safety_fund is None {
                Some(GovError::SafetyFundNotSet)
            } else if self.config.dao_treasury is None {
                Some(GovError::DaoTreasuryNotSet)
            } else if self.config.azman_token is None {
                Some(GovError::TokenNotSet)
            } else {
                None
            },
        }
    }

    /// What executing an executable proposal settles.
    pub open spec fn execution(&self, proposal_id: u64) -> ProposalOutcome {
        let p = self.proposal(proposal_id).unwrap();
        let token = self.config.azman_token.unwrap();
        if approves(p) {
            ProposalOutcome::Approved {
                approval: ProposalApproved {
                    id: proposal_id,
                    proposer: p.proposer,
                    refund_amount: PROPOSAL_FEE,
                },
                status: ProposalStatusChanged {
                    id: proposal_id,
                    old_status: ProposalStatus::Voting,
                    new_status: ProposalStatus::Approved,
                },
                refund: Movement::FromContract { token, to: p.proposer, amount: PROPOSAL_FEE },
            }
        } else {
            ProposalOutcome::Rejected {
                rejection: ProposalRejected {
                    id: proposal_id,
                    proposer: p.proposer,
                    forfeited_amount: PROPOSAL_FEE,
                    platform_share: platform_share() as i128,
                    safety_fund_share: safety_share() as i128,
                    dao_treasury_share: dao_share() as i128,
                },
                status: ProposalStatusChanged {
                    id: proposal_id,
                    old_status: ProposalStatus::Voting,
                    new_status: ProposalStatus::Rejected,
                },
                platform: Movement::FromContract {
                    token,
                    to: self.config.platform_treasury.unwrap(),
                    amount: platform_share() as i128,
                },
                safety: Movement::FromContract {
                    token,
                    to: self.config.safety_fund.unwrap(),
                    amount: safety_share() as i128,
                },
                dao: Movement::FromContract {
                    token,
                    to: self.config.dao_treasury.unwrap(),
                    amount: dao_share() as i128,
                },
            }
        }
    }

    /// Settles a proposal whose voting is over (or whose discussion has not yet reached its
    /// voting start): an approved proposal's fee is refunded, a rejected one's is split
    /// 50/40/10 between the platform treasury, the safety fund and the DAO treasury.
    pub fn execute_proposal(&mut self, proposal_id: u64, now: u64) -> (res: Result<
        ProposalOutcome,
        GovError,
    >)
        ensures
            match old(self).execute_error(proposal_id, now) {
                Some(e) => res == Err::<ProposalOutcome, GovError>(e) && *final(self) == *old(self),
                None => {
                    let p = old(self).proposal(proposal_id).unwrap();
                    &&& res == Ok::<ProposalOutcome, GovError>(old(self).execution(proposal_id))
                    &&& final(self).proposals@ == old(self).proposals@.insert(
                        proposal_id,
                        Proposal {
                            status: if approves(p) {
                                ProposalStatus::Approved
                            } else {
                                ProposalStatus::Rejected
                            },
                            executed: true,
                            ..p
                        },
                    )
                    &&& final(self).config == old(self).config
                    &&& final(self).votes@ == old(self).votes@
                    &&& final(self).dao_members@ == old(self).dao_members@
                    &&& final(self).dao_ballots@ == old(self).dao_ballots@
                },
            },
    {
        let (executed, status, voting_start, voting_end, yes, no, proposer) = match self.proposals.get(
            &proposal_id,
        ) {
            None => {
                return Err(GovError::ProposalNotFound);
            },
            Some(p) => (
                p.executed,
                p.status,
                p.voting_start,
                p.voting_end,
                p.votes_yes,
                p.votes_no,
                p.proposer,
            ),
        };
        if executed {
            return Err(GovError::AlreadyExecuted);
        }
        if status == ProposalStatus::Discussion && now >= voting_start {
            return Err(GovError::MovedToVoting);
        }
        if status == ProposalStatus::Voting && now < voting_end {
            return Err(GovError::VotingActive);
        }
        let total_votes = match yes.checked_add(no) {
            Some(x) => x,
            None => {
                return Err(GovError::Overflow);
            },
        };
        let approval_percentage: i128 = if total_votes > 0 {
            match yes.checked_mul(100) {
                Some(x) => x / total_votes,
                None => {
                    return Err(GovError::Overflow);
                },
            }
        } else {
            0
        };
        let approved = approval_percentage >= APPROVAL_THRESHOLD && total_votes > 0;
        assert(approved == approves(self.proposal(proposal_id).unwrap()));
        let outcome = if approved {
            let token = match self.config.azman_token {
                Some(t) => t,
                None => {
                    return Err(GovError::TokenNotSet);
                },
            };
            ProposalOutcome::Approved {
                approval: ProposalApproved { id: proposal_id, proposer, refund_amount: PROPOSAL_FEE },
                status: ProposalStatusChanged {
                    id: proposal_id,
                    old_status: ProposalStatus::Voting,
                    new_status: ProposalStatus::Approved,
                },
                refund: Movement::FromContract { token, to: proposer, amount: PROPOSAL_FEE },
            }
        } else {
            let platform_treasury = match self.config.platform_treasury {
                Some(a) => a,
                None => {
                    return Err(GovError::PlatformTreasuryNotSet);
                },
            };
            let safety_fund = match self.config.safety_fund {
                Some(a) => a,
                None => {
                    return Err(GovError::SafetyFundNotSet);
                },
            };
            let dao_treasury = match self.config.dao_treasury {
                Some(a) => a,
                None => {
                    return Err(GovError::DaoTreasuryNotSet);
                },
            };
            let token = match self.config.azman_token {
                Some(t) => t,
                None => {
                    return Err(GovError::TokenNotSet);
                },
            };
            let platform = (PROPOSAL_FEE * FORFEITURE_PLATFORM_SHARE) / 100;
            let safety = (PROPOSAL_FEE * FORFEITURE_SAFETY_SHARE) / 100;
            let dao = (PROPOSAL_FEE * FORFEITURE_DAO_SHARE) / 100;
            ProposalOutcome::Rejected {
                rejection: ProposalRejected {
                    id: proposal_id,
                    proposer,
                    forfeited_amount: PROPOSAL_FEE,
                    platform_share: platform,
                    safety_fund_share: safety,
                    dao_treasury_share: dao,
                },
                status: ProposalStatusChanged {
                    id: proposal_id,
                    old_status: ProposalStatus::Voting,
                    new_status: ProposalStatus::Rejected,
                },
                platform: Movement::FromContract { token, to: platform_treasury, amount: platform },
                safety: Movement::FromContract { token, to: safety_fund, amount: safety },
                dao: Movement::FromContract { token, to: dao_treasury, amount: dao },
            }
        };
        let mut p = self.proposals.remove(&proposal_id).unwrap();
        p.status = if approved {
            ProposalStatus::Approved
        } else {
            ProposalStatus::Rejected
        };
        p.executed = true;
        self.proposals.insert(proposal_id, p);
        Ok(outcome)
    }

    /// The first check that starting a DAO election fails.
    pub open spec fn start_election_error(&self, admin: AccountId, now: u64) -> Option<GovError> {
        if admin_error(self.config.admin, admin) is Some {
            admin_error(self.config.admin, admin)
        } else if self.election_running() {
            Some(GovError::ElectionInProgress)
        } else if now + DAO_ELECTION_DURATION > u64::MAX {
            Some(GovError::Overflow)
        } else {
            None
        }
    }

    /// The admin opens a DAO election that runs for the election duration from `now`.
    pub fn start_dao_election(&mut self, admin: AccountId, now: u64) -> (res: Result<
        DAOElectionStarted,
        GovError,
    >)
        ensures
            match old(self).start_election_error(admin, now) {
                Some(e) => res == Err::<DAOElectionStarted, GovError>(e) && *final(self)
                    == *old(self),
                None => {
                    let end = (now + DAO_ELECTION_DURATION) as u64;
                    &&& res == Ok::<DAOElectionStarted, GovError>(
                        DAOElectionStarted { start_time: now, end_time: end },
                    )
                    &&& final(self).config == (GovConfig {
                        election_active: Some(true),
                        election_start: Some(now),
                        election_end: Some(end),
                        ..old(self).config
                    })
                    &&& final(self).same_records(old(self))
                },
            },
    {
        if let Some(e) = check_admin(self.config.admin, admin) {
            return Err(e);
        }
        let active = match self.config.election_active {
            Some(b) => b,
            None => false,
        };
        if active {
            return Err(GovError::ElectionInProgress);
        }
        let end_time = match now.checked_add(DAO_ELECTION_DURATION) {
            Some(x) => x,
            None => {
                return Err(GovError::Overflow);
            },
        };
        self.config.election_active = Some(true);
        self.config.election_start = Some(now);
        self.config.election_end = Some(end_time);
        Ok(DAOElectionStarted { start_time: now, end_time })
    }

    /// The first check that a DAO ballot fails.
    pub open spec fn dao_vote_error(&self, voter: AccountId, candidate: AccountId, now: u64) -> Option<
        GovError,
    > {
        if !self.election_running() {
            Some(GovError::NoActiveElection)
        } else if self.config.election_end is None {
            Some(GovError::ElectionEndNotSet)
        } else if now > self.config.election_end.unwrap() {
            Some(GovError::ElectionEnded)
        } else if self.ballot_cast(voter, candidate) {
            Some(GovError::AlreadyVotedForCandidate)
        } else if self.member_votes(candidate) + 1 > i128::MAX {
            Some(GovError::Overflow)
        } else {
            None
        }
    }

    /// `voter` gives `candidate` one vote in the running DAO election, at most once per
    /// candidate.
    pub fn vote_for_dao_member(&mut self, voter: AccountId, candidate: AccountId, now: u64) -> (res:
        Result<(), GovError>)
        ensures
            match old(self).dao_vote_error(voter, candidate, now) {
                Some(e) => res == Err::<(), GovError>(e) && *final(self) == *old(self),
                None => {
                    &&& res == Ok::<(), GovError>(())
                    &&& final(self).dao_ballots@ == old(self).dao_ballots@.insert(
                        common::pair_slot(voter, candidate),
                        true,
                    )
                    &&& final(self).dao_members@ == common::credit(
                        old(self).dao_members@,
                        candidate,
                        1,
                    )
                    &&& final(self).config == old(self).config
                    &&& final(self).proposals@ == old(self).proposals@
                    &&& final(self).votes@ == old(self).votes@
                },
            },
    {
        let active = match self.config.election_active {
            Some(b) => b,
            None => false,
        };
        if !active {
            return Err(GovError::NoActiveElection);
        }
        let end_time = match self.config.election_end {
            Some(t) => t,
            None => {
                return Err(GovError::ElectionEndNotSet);
            },
        };
        if now > end_time {
            return Err(GovError::ElectionEnded);
        }
        let key = slot_of(voter, candidate);
        if self.dao_ballots.contains_key(&key) {
            return Err(GovError::AlreadyVotedForCandidate);
        }
        let current: i128 = match self.dao_members.get(&candidate) {
            Some(v) => *v,
            None => 0,
        };
        let updated = match current.checked_add(1) {
            Some(x) => x,
            None => {
                return Err(GovError::Overflow);
            },
        };
        self.dao_ballots.insert(key, true);
        self.dao_members.insert(candidate, updated);
        Ok(())
    }

    /// The first check that closing a DAO election fails.
    pub open spec fn finalize_error(&self, admin: AccountId, now: u64) -> Option<GovError> {
        if admin_error(self.config.admin, admin) is Some {
            admin_error(self.config.admin, admin)
        } else if !self.election_running() {
            Some(GovError::NoActiveElection)
        } else if self.config.election_end is None {
            Some(GovError::ElectionEndNotSet)
        } else if now < self.config.election_end.unwrap() {
            Some(GovError::ElectionNotEnded)
        } else {
            None
        }
    }

    /// The admin closes a DAO election whose period is over.
    pub fn finalize_dao_election(&mut self, admin: AccountId, now: u64) -> (res: Result<(), GovError>)
        ensures
            match old(self).finalize_error(admin, now) {
                Some(e) => res == Err::<(), GovError>(e) && *final(self) == *old(self),
                None => {
                    &&& res == Ok::<(), GovError>(())
                    &&& final(self).config == (GovConfig {
                        election_active: Some(false),
                        ..old(self).config
                    })
                    &&& final(self).same_records(old(self))
                },
            },
    {
        if let Some(e) = check_admin(self.config.admin, admin) {
            return Err(e);
        }
        let active = match self.config.election_active {
            Some(b) => b,
            None => false,
        };
        if !active {
            return Err(GovError::NoActiveElection);
        }
        let end_time = match self.config.election_end {
            Some(t) => t,
            None => {
                return Err(GovError::ElectionEndNotSet);
            },
        };
        if now < end_time {
            return Err(GovError::ElectionNotEnded);
        }
        self.config.election_active = Some(false);
        Ok(())
    }

    /// The first check that a disbursement from the DAO treasury fails.
    pub open spec fn disburse_error(&self, amount: i128, signatures: Seq<AccountId>, dao_treasury_balance: i128) -> Option<
        GovError,
    > {
        if signatures.len() < DAO_MULTISIG_THRESHOLD {
            Some(GovError::InsufficientSignatures)
        } else if exists|i: int|
            0 <= i < signatures.len() && !self.dao_members@.contains_key(#[trigger] signatures[i]) {
            Some(GovError::NotDaoMember)
        } else if self.config.dao_treasury is None {
            Some(GovError::DaoTreasuryNotSet)
        } else if self.config.azman_token is None {
            Some(GovError::TokenNotSet)
        } else if dao_treasury_balance < amount {
            Some(GovError::InsufficientDaoTreasury)
        } else {
            None
        }
    }

    /// Pays `amount` to `recipient` on the signatures of at least the threshold of DAO
    /// members. `dao_treasury_balance` is the DAO treasury's token balance.
    pub fn dao_treasury_disburse(
        &self,
        proposal_id: u64,
        amount: i128,
        recipient: AccountId,
        signatures: &Vec<AccountId>,
        dao_treasury_balance: i128,
    ) -> (res: Result<Movement, GovError>)
        ensures
            match self.disburse_error(amount, signatures@, dao_treasury_balance) {
                Some(e) => res == Err::<Movement, GovError>(e),
                None => res == Ok::<Movement, GovError>(
                    Movement::FromContract {
                        token: self.config.azman_token.unwrap(),
                        to: recipient,
                        amount,
                    },
                ),
            },
    {
        if signatures.len() < DAO_MULTISIG_THRESHOLD as usize {
            return Err(GovError::InsufficientSignatures);
        }
        let mut i: usize = 0;
        while i < signatures.len()
            invariant
                i <= signatures@.len(),
                signatures@.len() >= DAO_MULTISIG_THRESHOLD,
                forall|j: int| 0 <= j < i ==> self.dao_members@.contains_key(#[trigger] signatures@[j]),
            decreases signatures@.len() - i,
        {
            if !self.dao_members.contains_key(&signatures[i]) {
                assert(!self.dao_members@.contains_key(signatures@[i as int]));
                return Err(GovError::NotDaoMember);
            }
            i = i + 1;
        }
        let _dao_treasury = match self.config.dao_treasury {
            Some(t) => t,
            None => {
                return Err(GovError::DaoTreasuryNotSet);
            },
        };
        let token = match self.config.azman_token {
            Some(t) => t,
            None => {
                return Err(GovError::TokenNotSet);
            },
        };
        if dao_treasury_balance < amount {
            return Err(GovError::InsufficientDaoTreasury);
        }
        Ok(Movement::FromContract { token, to: recipient, amount })
    }

    /// Number of seats of the DAO treasury.
    pub fn get_dao_member_count(&self) -> (n: u32)
        ensures
            n == DAO_MEMBER_COUNT,
    {
        DAO_MEMBER_COUNT
    }

    /// Signatures needed for a disbursement.
    pub fn get_dao_multisig_threshold(&self) -> (n: u32)
        ensures
            n == DAO_MULTISIG_THRESHOLD,
    {
        DAO_MULTISIG_THRESHOLD
    }

    /// The admin points governance at a new escrow contract.
    pub fn update_gov_mithaq_contract(&mut self, admin: AccountId, new_contract: AccountId) -> (res:
        Result<(), GovError>)
        ensures
            match admin_error(old(self).config.admin, admin) {
                Some(e) => res == Err::<(), GovError>(e) && *final(self) == *old(self),
                None => res == Ok::<(), GovError>(()) && final(self).config == (GovConfig {
                    mithaq_contract: Some(new_contract),
                    ..old(self).config
                }) && final(self).same_records(old(self)),
            },
    {
        if let Some(e) = check_admin(self.config.admin, admin) {
            return Err(e);
        }
        self.config.mithaq_contract = Some(new_contract);
        Ok(())
    }

    /// The admin points governance at a new token.
    pub fn update_gov_azman_token(&mut self, admin: AccountId, new_token: AccountId) -> (res: Result<
        (),
        GovError,
    >)
        ensures
            match admin_error(old(self).config.admin, admin) {
                Some(e) => res == Err::<(), GovError>(e) && *final(self) == *old(self),
                None => res == Ok::<(), GovError>(()) && final(self).config == (GovConfig {
                    azman_token: Some(new_token),
                    ..old(self).config
                }) && final(self).same_records(old(self)),
            },
    {
        if let Some(e) = check_admin(self.config.admin, admin) {
            return Err(e);
        }
        self.config.azman_token = Some(new_token);
        Ok(())
    }

    /// The admin sets a new platform treasury.
    pub fn update_gov_platform_treasury(&mut self, admin: AccountId, new_treasury: AccountId) -> (res:
        Result<(), GovError>)
        ensures
            match admin_error(old(self).config.admin, admin) {
                Some(e) => res == Err::<(), GovError>(e) && *final(self) == *old(self),
                None => res == Ok::<(), GovError>(()) && final(self).config == (GovConfig {
                    platform_treasury: Some(new_treasury),
                    ..old(self).config
                }) && final(self).same_records(old(self)),
            },
    {
        if let Some(e) = check_admin(self.config.admin, admin) {
            return Err(e);
        }
        self.config.platform_treasury = Some(new_treasury);
        Ok(())
    }

    /// The admin sets a new safety fund.
    pub fn update_gov_safety_fund(&mut self, admin: AccountId, new_fund: AccountId) -> (res: Result<
        (),
        GovError,
    >)
        ensures
            match admin_error(old(self).config.admin, admin) {
                Some(e) => res == Err::<(), GovError>(e) && *final(self) == *old(self),
                None => res == Ok::<(), GovError>(()) && final(self).config == (GovConfig {
                    safety_fund: Some(new_fund),
                    ..old(self).config
                }) && final(self).same_records(old(self)),
            },
    {
        if let Some(e) = check_admin(self.config.admin, admin) {
            return Err(e);
        }
        self.config.safety_fund = Some(new_fund);
        Ok(())
    }

    /// The admin sets a new DAO treasury.
    pub fn update_gov_dao_treasury(&mut self, admin: AccountId, new_treasury: AccountId) -> (res:
        Result<(), GovError>)
        ensures
            match admin_error(old(self).config.admin, admin) {
                Some(e) => res == Err::<(), GovError>(e) && *final(self) == *old(self),
                None => res == Ok::<(), GovError>(()) && final(self).config == (GovConfig {
                    dao_treasury: Some(new_treasury),
                    ..old(self).config
                }) && final(self).same_records(old(self)),
            },
    {
        if let Some(e) = check_admin(self.config.admin, admin) {
            return Err(e);
        }
        self.config.dao_treasury = Some(new_treasury);
        Ok(())
    }

    /// The admin hands the admin role to `new_admin`.
    pub fn transfer_governance_admin(&mut self, current_admin: AccountId, new_admin: AccountId) -> (res:
        Result<(), GovError>)
        ensures
            match admin_error(old(self).config.admin, current_admin) {
                Some(e) => res == Err::<(), GovError>(e) && *final(self) == *old(self),
                None => res == Ok::<(), GovError>(()) && final(self).config == (GovConfig {
                    admin: Some(new_admin),
                    ..old(self).config
                }) && final(self).same_records(old(self)),
            },
    {
        if let Some(e) = check_admin(self.config.admin, current_admin) {
            return Err(e);
        }
        self.config.admin = Some(new_admin);
        Ok(())
    }

    /// The proposal with identifier `proposal_id`, if any.
    pub fn get_proposal_details(&self, proposal_id: u64) -> (r: Option<&Proposal>)
        ensures
            match self.proposal(proposal_id) {
                Some(p) => r == Some(&p),
                None => r is None,
            },
    {
        self.proposals.get(&proposal_id)
    }

    /// Whether `voter` has voted on proposal `proposal_id`.
    pub fn has_voted(&self, proposal_id: u64, voter: AccountId) -> (b: bool)
        ensures
            b == self.voted(proposal_id, voter),
    {
        self.votes.contains_key(&slot_of(proposal_id, voter))
    }

    /// The number of proposals submitted so far.
    pub fn get_proposal_counter(&self) -> (c: u64)
        ensures
            c == self.counter(),
    {
        match self.config.proposal_counter {
            Some(c) => c,
            None => 0,
        }
    }

    /// The admin, once set.
    pub fn get_admin_address(&self) -> (r: Option<AccountId>)
        ensures
            r == self.config.admin,
    {
        self.config.admin
    }

    /// The percentages in which a forfeited fee is split: platform, safety fund, DAO.
    pub fn get_forfeiture_split(&self) -> (r: (i128, i128, i128))
        ensures
            r == (FORFEITURE_PLATFORM_SHARE, FORFEITURE_SAFETY_SHARE, FORFEITURE_DAO_SHARE),
    {
        (FORFEITURE_PLATFORM_SHARE, FORFEITURE_SAFETY_SHARE, FORFEITURE_DAO_SHARE)
    }

    /// Whether a DAO election is running.
    pub fn is_election_active(&self) -> (b: bool)
        ensures
            b == self.election_running(),
    {
        match self.config.election_active {
            Some(b) => b,
            None => false,
        }
    }

    /// When the current or last DAO election ends: zero if none was ever started.
    pub fn get_election_end_time(&self) -> (t: u64)
        ensures
            t == match self.config.election_end {
                Some(e) => e,
                None => 0,
            },
    {
        match self.config.election_end {
            Some(e) => e,
            None => 0,
        }
    }
}

/// A forfeited proposal fee is split in full: the platform, safety-fund and DAO shares add up
/// to the fee, in the proportions 50/40/10.
pub proof fn law_forfeiture_split_is_whole()
    ensures
        platform_share() + safety_share() + dao_share() == PROPOSAL_FEE,
        platform_share() == PROPOSAL_FEE / 2,
        safety_share() == PROPOSAL_FEE * 4 / 10,
        dao_share() == PROPOSAL_FEE / 10,
{
}

/// Executing a proposal settles its whole fee: an approved proposal's fee goes back to the
/// proposer, a rejected one's is paid out in full to the three recipients.
pub proof fn law_execution_settles_fee(g: MithaqGovernance, proposal_id: u64, now: u64)
    requires
        g.execute_error(proposal_id, now) is None,
    ensures
        match g.execution(proposal_id) {
            ProposalOutcome::Approved { refund, .. } => refund == Movement::FromContract {
                token: g.config.azman_token.unwrap(),
                to: g.proposal(proposal_id).unwrap().proposer,
                amount: PROPOSAL_FEE,
            },
            ProposalOutcome::Rejected { platform, safety, dao, .. } => {
                &&& platform is FromContract && safety is FromContract && dao is FromContract
                &&& platform->FromContract_to == g.config.platform_treasury.unwrap()
                &&& safety->FromContract_to == g.config.safety_fund.unwrap()
                &&& dao->FromContract_to == g.config.dao_treasury.unwrap()
                &&& platform->FromContract_amount + safety->FromContract_amount
                    + dao->FromContract_amount == PROPOSAL_FEE
            },
        },
{
}

/// A proposal is settled at most once: an executed proposal refuses execution.
pub proof fn law_execute_once(g: MithaqGovernance, proposal_id: u64, now: u64)
    requires
        g.proposal(proposal_id) is Some,
        g.proposal(proposal_id).unwrap().executed,
    ensures
        g.execute_error(proposal_id, now) == Some(GovError::AlreadyExecuted),
{
}

/// Each account votes at most once on a proposal: once its ballot is recorded, any further
/// vote of it on that proposal is refused.
pub proof fn law_single_vote(g: MithaqGovernance, voter: AccountId, proposal_id: u64, vote_type: Seq<u8>, now: u64)
    requires
        g.voted(proposal_id, voter),
    ensures
        g.vote_error(voter, proposal_id, vote_type, now) is Some,
{
}

/// A ballot adds one to the voters and one to exactly one side, so a tally whose sides add up
/// to its voters still does.
pub proof fn law_tally_consistent(p: Proposal, choice: VoteChoice)
    requires
        p.votes_yes + p.votes_no == p.total_voters,
        p.votes_yes + 1 <= i128::MAX,
        p.votes_no + 1 <= i128::MAX,
        p.total_voters + 1 <= i128::MAX,
    ensures
        MithaqGovernance::tallied(p, choice).votes_yes + MithaqGovernance::tallied(p, choice).votes_no
            == MithaqGovernance::tallied(p, choice).total_voters,
        MithaqGovernance::tallied(p, choice).total_voters == p.total_voters + 1,
{
}

/// Each account gives a DAO candidate at most one vote.
pub proof fn law_single_dao_ballot(g: MithaqGovernance, voter: AccountId, candidate: AccountId, now: u64)
    requires
        g.ballot_cast(voter, candidate),
    ensures
        g.dao_vote_error(voter, candidate, now) is Some,
{
}

/// A proposal is approved exactly when it received votes and at least 60 per cent of them
/// are yes votes: executing it then refunds the fee, and otherwise the fee is forfeited. A
/// simple majority is not enough: 11 yes votes against 9 no votes reject the proposal.
pub proof fn law_approval_needs_sixty_percent(g: MithaqGovernance, proposal_id: u64, now: u64)
    requires
        g.execute_error(proposal_id, now) is None,
    ensures
        ({
            let p = g.proposal(proposal_id).unwrap();
            let yes = p.votes_yes as int;
            let total = p.votes_yes + p.votes_no;
            p.votes_yes >= 0 && p.votes_no >= 0 ==> (g.execution(proposal_id) is Approved <==> (
            total > 0 && 100 * yes >= 60 * total))
        }),
{
    let p = g.proposal(proposal_id).unwrap();
    let yes = p.votes_yes as int;
    let total = p.votes_yes + p.votes_no;
    if p.votes_yes >= 0 && p.votes_no >= 0 && total > 0 {
        assert((yes * 100) / total >= 60 <==> 100 * yes >= 60 * total) by (nonlinear_arith)
            requires
                yes >= 0,
                total > 0,
        ;
    }
}

} // verus!
