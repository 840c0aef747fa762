//! The voting module: the state object that each call is applied to. It owns
//! the proposal registry, the contribution ledger, the governance snapshots
//! and the list of SHLD holders, and checks authorization for privileged
//! calls. Caller identity, block time and oracle readings come in as
//! arguments.

use crate::contributions::{
    account_records,
    contribution_total,
    lemma_append_record,
    lemma_contribution_within_hours,
    project_hours,
    ContributionLedger,
    ContributionView,
    ProjectContribution,
};
use crate::cross_chain::{
    check_aurora_balance,
    check_aurora_proof,
    balance_verdict,
    message_signer,
    proof_verdict,
    ManaBalancesProof,
    ProofVerdict,
};
use crate::error::DaoError;
use crate::governance::{GovernanceData, GovernanceDataContract};
use crate::proposals::{
    find_proposal,
    new_proposal,
    registry_vote_outcome,
    Proposal,
    ProposalType,
    ProposalView,
    Proposals,
};
use crate::voting_power::{governance_power, governance_voting_power, project_power, project_voting_power};
use vstd::prelude::*;

verus! {

/// Status of a vote on a project plan.
#[derive(Clone, Copy, Debug, PartialEq, Eq, Structural)]
pub enum ProjectPlanStatus {
    Active,
    Approved,
    Rejected,
}

/// Status of a vote on a project execution.
#[derive(Clone, Copy, Debug, PartialEq, Eq, Structural)]
pub enum ProjectExecutionStatus {
    Active,
    Approved,
    Rejected,
}

/// Tallies of the vote on a project plan.
#[derive(Clone, Copy, Debug, PartialEq, Eq, Structural)]
pub struct ProjectPlanVote {
    pub project_plan_id: u64,
    pub votes_for: u64,
    pub votes_against: u64,
    pub status: ProjectPlanStatus,
}

/// Tallies of the vote on a project execution.
#[derive(Clone, Copy, Debug, PartialEq, Eq, Structural)]
pub struct ProjectExecutionVote {
    pub project_execution_id: u64,
    pub votes_for: u64,
    pub votes_against: u64,
    pub status: ProjectExecutionStatus,
}

/// What the oracle reported for one account: its balances and the
/// circulating supplies. Zero stands for "unknown".
#[derive(Clone, Copy, Debug, PartialEq, Eq, Structural)]
pub struct OracleReading {
    pub mana_balance: u128,
    pub collateral_mana_balance: u128,
    pub circulating_mana: u128,
    pub circulating_collateral: u128,
}

impl OracleReading {
    /// A reading from the two oracle requests; a request that failed (timed
    /// out, could not connect, answered malformed) contributes zeros.
    pub fn from_fetches(balances: Option<(u128, u128)>, supply: Option<(u128, u128)>) -> (r:
        OracleReading)
        ensures
            (r.mana_balance, r.collateral_mana_balance) == match balances {
                Some(b) => b,
                None => (0u128, 0u128),
            },
            (r.circulating_mana, r.circulating_collateral) == match supply {
                Some(s) => s,
                None => (0u128, 0u128),
            },
    {
        let (mana_balance, collateral_mana_balance) = match balances {
            Some(b) => b,
            None => (0, 0),
        };
        let (circulating_mana, circulating_collateral) = match supply {
            Some(s) => s,
            None => (0, 0),
        };
        OracleReading { mana_balance, collateral_mana_balance, circulating_mana, circulating_collateral }
    }
}

/// The voting power of `account` for a proposal of `proposal_type`: from the
/// oracle reading for governance, from the ledger for a project. `None` when
/// it does not fit in a `u128`.
pub open spec fn voting_power_of(
    ledger: Seq<ContributionView>,
    account: Seq<char>,
    proposal_type: ProposalType,
    reading: OracleReading,
) -> Option<u128> {
    match proposal_type {
        ProposalType::Governance => {
            let g = governance_power(
                reading.mana_balance,
                reading.collateral_mana_balance,
                reading.circulating_mana,
                reading.circulating_collateral,
            );
            if g <= u128::MAX {
                Some(g as u128)
            } else {
                None
            }
        },
        ProposalType::Project { project_id } => Some(
            project_power(
                contribution_total(ledger, account, project_id) as int,
                project_hours(ledger, project_id) as int,
            ) as u128,
        ),
    }
}

/// The power that a vote by `account` on proposal `id` carries.
pub open spec fn power_for_proposal(
    proposals: Seq<ProposalView>,
    ledger: Seq<ContributionView>,
    id: u64,
    account: Seq<char>,
    reading: OracleReading,
) -> Option<u128> {
    match find_proposal(proposals, id) {
        Some(p) => voting_power_of(ledger, account, p.proposal_type, reading),
        None => None,
    }
}

/// The state of the organization's voting.
pub struct VotingModule {
    owner_id: String,
    shld_holders: Vec<String>,
    proposals: Proposals,
    contributions: ContributionLedger,
    governance_data: GovernanceDataContract,
}

impl VotingModule {
    /// The owner, the only principal allowed to make privileged calls.
    pub closed spec fn owner(&self) -> Seq<char> {
        self.owner_id@
    }

    /// The registered SHLD holders, in registration order.
    pub closed spec fn holders(&self) -> Seq<Seq<char>> {
        self.shld_holders@.map_values(|h: String| h@)
    }

    /// The proposals, under ids 1, 2, ...
    pub closed spec fn proposals_view(&self) -> Seq<ProposalView> {
        self.proposals@
    }

    /// The contribution records, oldest first.
    pub closed spec fn ledger(&self) -> Seq<ContributionView> {
        self.contributions@
    }

    /// The governance snapshot of each account that has one.
    pub closed spec fn snapshots(&self) -> Map<Seq<char>, GovernanceData> {
        self.governance_data@
    }

    /// The registry keeps its ids in order.
    pub closed spec fn wf(&self) -> bool {
        self.proposals.wf()
    }

    /// An empty module owned by `owner_id`.
    pub fn new(owner_id: String) -> (r: VotingModule)
        ensures
            r.wf(),
            r.owner() == owner_id@,
            r.holders() == Seq::<Seq<char>>::empty(),
            r.proposals_view() == Seq::<ProposalView>::empty(),
            r.ledger() == Seq::<ContributionView>::empty(),
            r.snapshots() == Map::<Seq<char>, GovernanceData>::empty(),
    {
        let r = VotingModule {
            owner_id,
            shld_holders: Vec::new(),
            proposals: Proposals::new(),
            contributions: ContributionLedger::new(),
            governance_data: GovernanceDataContract::new(),
        };
        assert(r.holders() =~= Seq::<Seq<char>>::empty());
        r
    }

    /// An empty module owned by `owner_id`; the same as [`VotingModule::new`].
    pub fn init_voting(owner_id: String) -> (r: VotingModule)
        ensures
            r.wf(),
            r.owner() == owner_id@,
            r.holders() == Seq::<Seq<char>>::empty(),
            r.proposals_view() == Seq::<ProposalView>::empty(),
            r.ledger() == Seq::<ContributionView>::empty(),
            r.snapshots() == Map::<Seq<char>, GovernanceData>::empty(),
    {
        Self::new(owner_id)
    }

    /// The owner's account id.
    pub fn owner_id(&self) -> (r: &String)
        ensures
            r@ == self.owner(),
    {
        &self.owner_id
    }

    /// Number of proposals created so far.
    pub fn proposal_count(&self) -> (r: usize)
        ensures
            r == self.proposals_view().len(),
    {
        self.proposals.len()
    }

    /// Fails with `Unauthorized` unless `caller` is the owner.
    fn authorize(&self, caller: &String) -> (r: Result<(), DaoError>)
        ensures
            r is Ok <==> caller@ == self.owner(),
            r is Err ==> r == Err::<(), DaoError>(DaoError::Unauthorized),
    {
        if *caller == self.owner_id {
            Ok(())
        } else {
            Err(DaoError::Unauthorized)
        }
    }

    /// Whether `account_id` is a registered SHLD holder.
    pub fn is_shld_holder(&self, account_id: &String) -> (r: bool)
        ensures
            r == self.holders().contains(account_id@),
    {
        let mut i: usize = 0;
        while i < self.shld_holders.len()
            invariant
                i <= self.holders().len(),
                self.holders().len() == self.shld_holders@.len(),
                forall|j: int| 0 <= j < i ==> self.holders()[j] != account_id@,
            decreases self.holders().len() - i,
        {
            if self.shld_holders[i] == *account_id {
                assert(self.holders()[i as int] == account_id@);
                return true;
            }
            i = i + 1;
        }
        false
    }

    /// Registers `account_id` as a SHLD holder (owner only); registering a
    /// holder twice keeps one entry.
    pub fn register_shld_holder(&mut self, caller: &String, account_id: String) -> (r: Result<
        (),
        DaoError,
    >)
        requires
            old(self).wf(),
        ensures
            final(self).wf(),
            r is Ok <==> caller@ == old(self).owner(),
            r is Err ==> r == Err::<(), DaoError>(DaoError::Unauthorized),
            final(self).holders() == (if r is Ok && !old(self).holders().contains(account_id@) {
                old(self).holders().push(account_id@)
            } else {
                old(self).holders()
            }),
            final(self).owner() == old(self).owner(),
            final(self).proposals_view() == old(self).proposals_view(),
            final(self).ledger() == old(self).ledger(),
            final(self).snapshots() == old(self).snapshots(),
    {
        self.authorize(caller)?;
        if !self.is_shld_holder(&account_id) {
            let ghost key = account_id@;
            self.shld_holders.push(account_id);
            assert(self.holders() =~= old(self).holders().push(key));
        }
        Ok(())
    }

    /// Creates an active proposal under the next id and returns that id.
    pub fn create_proposal(
        &mut self,
        proposer: String,
        title: String,
        description: String,
        proposal_type: ProposalType,
    ) -> (r: u64)
        requires
            old(self).wf(),
            old(self).proposals_view().len() < u64::MAX,
        ensures
            final(self).wf(),
            r == old(self).proposals_view().len() + 1,
            final(self).proposals_view() == old(self).proposals_view().push(
                new_proposal(r, title@, description@, proposer@, proposal_type),
            ),
            final(self).owner() == old(self).owner(),
            final(self).holders() == old(self).holders(),
            final(self).ledger() == old(self).ledger(),
            final(self).snapshots() == old(self).snapshots(),
    {
        self.proposals.create_proposal(title, description, proposer, proposal_type)
    }

    /// The proposal with `id`, if any.
    pub fn get_proposal(&self, id: u64) -> (r: Option<&Proposal>)
        ensures
            match r {
                Some(p) => find_proposal(self.proposals_view(), id) == Some(p@),
                None => find_proposal(self.proposals_view(), id) is None,
            },
    {
        self.proposals.get_proposal(id)
    }

    /// All proposals in creation order.
    pub fn get_all_proposals(&self) -> (r: &Vec<Proposal>)
        ensures
            r@.map_values(|p: Proposal| p@) == self.proposals_view(),
    {
        self.proposals.get_all_proposals()
    }

    /// Voting power of `account_id` for a proposal of `proposal_type`, given
    /// the oracle's reading for that account; `None` when it does not fit in
    /// a `u128`. Governance power is zero when either circulating supply is.
    pub fn get_voting_power(
        &self,
        account_id: &String,
        proposal_type: &ProposalType,
        reading: &OracleReading,
    ) -> (r: Option<u128>)
        ensures
            r == voting_power_of(self.ledger(), account_id@, *proposal_type, *reading),
            *proposal_type == ProposalType::Governance && (reading.circulating_mana == 0
                || reading.circulating_collateral == 0) ==> r == Some(0u128),
    {
        match proposal_type {
            ProposalType::Governance => governance_voting_power(
                reading.mana_balance,
                reading.collateral_mana_balance,
                reading.circulating_mana,
                reading.circulating_collateral,
            ),
            ProposalType::Project { project_id } => {
                let contribution = self.contributions.contribution_of(account_id, *project_id);
                let total = self.contributions.total_hours(*project_id);
                proof {
                    lemma_contribution_within_hours(self.ledger(), account_id@, *project_id);
                }
                Some(project_voting_power(contribution, total))
            },
        }
    }

    /// `caller` votes for (`approve`) or against proposal `proposal_id` with
    /// their full voting power. Fails, changing nothing, when the proposal
    /// does not exist, is no longer active, already has the caller's vote,
    /// or the caller's power is zero (or too large for a tally).
    pub fn vote(
        &mut self,
        caller: &String,
        proposal_id: u64,
        approve: bool,
        reading: &OracleReading,
    ) -> (r: Result<(), DaoError>)
        requires
            old(self).wf(),
        ensures
            final(self).wf(),
            match registry_vote_outcome(
                old(self).proposals_view(),
                proposal_id,
                caller@,
                approve,
                power_for_proposal(
                    old(self).proposals_view(),
                    old(self).ledger(),
                    proposal_id,
                    caller@,
                    *reading,
                ),
            ) {
                Ok(next) => r is Ok && final(self).proposals_view() == next,
                Err(e) => r == Err::<(), DaoError>(e) && final(self).proposals_view() == old(
                    self,
                ).proposals_view(),
            },
            final(self).owner() == old(self).owner(),
            final(self).holders() == old(self).holders(),
            final(self).ledger() == old(self).ledger(),
            final(self).snapshots() == old(self).snapshots(),
    {
        let proposal_type = match self.proposals.get_proposal(proposal_id) {
            Some(p) => p.proposal_type,
            None => {
                return Err(DaoError::ProposalNotFound);
            },
        };
        let power = self.get_voting_power(caller, &proposal_type, reading);
        self.proposals.vote(proposal_id, caller, approve, power)
    }

    /// Appends a contribution of `amount` by `account_id` to `project_id` at
    /// `timestamp` (owner only). Earlier records are never changed.
    pub fn add_project_contribution(
        &mut self,
        caller: &String,
        account_id: String,
        project_id: u64,
        amount: u64,
        timestamp: u64,
    ) -> (r: Result<(), DaoError>)
        requires
            old(self).wf(),
        ensures
            final(self).wf(),
            r is Ok <==> caller@ == old(self).owner(),
            r is Err ==> r == Err::<(), DaoError>(DaoError::Unauthorized),
            final(self).ledger() == (if r is Ok {
                old(self).ledger().push(
                    ContributionView {
                        account_id: account_id@,
                        project_id,
                        contribution_amount: amount,
                        timestamp,
                    },
                )
            } else {
                old(self).ledger()
            }),
            r is Ok ==> contribution_total(final(self).ledger(), account_id@, project_id)
                == contribution_total(old(self).ledger(), account_id@, project_id) + amount,
            r is Ok ==> project_hours(final(self).ledger(), project_id) == project_hours(
                old(self).ledger(),
                project_id,
            ) + amount,
            final(self).owner() == old(self).owner(),
            final(self).holders() == old(self).holders(),
            final(self).proposals_view() == old(self).proposals_view(),
            final(self).snapshots() == old(self).snapshots(),
    {
        self.authorize(caller)?;
        let ghost e = ContributionView {
            account_id: account_id@,
            project_id,
            contribution_amount: amount,
            timestamp,
        };
        self.contributions.append(account_id, project_id, amount, timestamp);
        proof {
            lemma_append_record(old(self).ledger(), e, e.account_id, project_id);
        }
        Ok(())
    }

    /// Registers a contribution (owner only); the same as
    /// [`VotingModule::add_project_contribution`].
    pub fn register_project_contribution(
        &mut self,
        caller: &String,
        account_id: String,
        project_id: u64,
        contribution: u64,
        timestamp: u64,
    ) -> (r: Result<(), DaoError>)
        requires
            old(self).wf(),
        ensures
            final(self).wf(),
            r is Ok <==> caller@ == old(self).owner(),
            r is Err ==> r == Err::<(), DaoError>(DaoError::Unauthorized),
            final(self).ledger() == (if r is Ok {
                old(self).ledger().push(
                    ContributionView {
                        account_id: account_id@,
                        project_id,
                        contribution_amount: contribution,
                        timestamp,
                    },
                )
            } else {
                old(self).ledger()
            }),
            r is Ok ==> contribution_total(final(self).ledger(), account_id@, project_id)
                == contribution_total(old(self).ledger(), account_id@, project_id) + contribution,
            final(self).owner() == old(self).owner(),
            final(self).holders() == old(self).holders(),
            final(self).proposals_view() == old(self).proposals_view(),
            final(self).snapshots() == old(self).snapshots(),
    {
        self.add_project_contribution(caller, account_id, project_id, contribution, timestamp)
    }

    /// The contribution records of `account_id`, oldest first; `None` when
    /// there are none.
    pub fn get_project_contributions(&self, account_id: &String) -> (r: Option<
        Vec<ProjectContribution>,
    >)
        ensures
            match r {
                Some(v) => v@.map_values(|c: ProjectContribution| c@) == account_records(
                    self.ledger(),
                    account_id@,
                ) && v@.len() > 0,
                None => account_records(self.ledger(), account_id@).len() == 0,
            },
    {
        let records = self.contributions.records_of(account_id);
        if records.len() == 0 {
            None
        } else {
            Some(records)
        }
    }

    /// Total amount that `account_id` contributed to `project_id`.
    pub fn get_contribution(&self, account_id: &String, project_id: u64) -> (r: u128)
        ensures
            r == contribution_total(self.ledger(), account_id@, project_id),
    {
        self.contributions.contribution_of(account_id, project_id)
    }

    /// Total contribution hours of `project_id` over all accounts.
    pub fn total_contribution_hours(&self, project_id: u64) -> (r: u128)
        ensures
            r == project_hours(self.ledger(), project_id),
    {
        self.contributions.total_hours(project_id)
    }

    /// Records the governance snapshot of `account_id` (owner only),
    /// replacing any earlier one.
    pub fn update_governance_data(
        &mut self,
        caller: &String,
        account_id: String,
        mana_balance: u128,
        mana_collateral_balance: u128,
        voting_power: u64,
        transaction_id: u64,
    ) -> (r: Result<(), DaoError>)
        requires
            old(self).wf(),
        ensures
            final(self).wf(),
            r is Ok <==> caller@ == old(self).owner(),
            r is Err ==> r == Err::<(), DaoError>(DaoError::Unauthorized),
            final(self).snapshots() == (if r is Ok {
                old(self).snapshots().insert(
                    account_id@,
                    GovernanceData {
                        mana_balance,
                        mana_collateral_balance,
                        voting_power,
                        transaction_id: Some(transaction_id),
                    },
                )
            } else {
                old(self).snapshots()
            }),
            final(self).owner() == old(self).owner(),
            final(self).holders() == old(self).holders(),
            final(self).proposals_view() == old(self).proposals_view(),
            final(self).ledger() == old(self).ledger(),
    {
        self.authorize(caller)?;
        let data = GovernanceData {
            mana_balance,
            mana_collateral_balance,
            voting_power,
            transaction_id: Some(transaction_id),
        };
        self.governance_data.update_governance_data(account_id, data);
        Ok(())
    }

    /// The governance snapshot of `account_id`, if one was recorded.
    pub fn get_governance_data(&self, account_id: &String) -> (r: Option<GovernanceData>)
        ensures
            r == (if self.snapshots().contains_key(account_id@) {
                Some(self.snapshots()[account_id@])
            } else {
                None::<GovernanceData>
            }),
    {
        self.governance_data.get_governance_data(account_id)
    }

    /// Whether the claimed values equal, field by field, the recorded
    /// snapshot of `account_id`; false when there is none.
    pub fn verify_cross_chain_data(
        &self,
        account_id: &String,
        mana_balance: u128,
        mana_collateral_balance: u128,
        voting_power: u64,
        transaction_id: u64,
    ) -> (r: bool)
        ensures
            r == (self.snapshots().contains_key(account_id@) && self.snapshots()[account_id@]
                == GovernanceData {
                mana_balance,
                mana_collateral_balance,
                voting_power,
                transaction_id: Some(transaction_id),
            }),
    {
        self.governance_data.verify_cross_chain_data(
            account_id,
            mana_balance,
            mana_collateral_balance,
            voting_power,
            transaction_id,
        )
    }

    /// Whether a balance proof for `account_id` is trusted; see
    /// [`check_aurora_proof`]. An empty signature is never trusted.
    pub fn verify_aurora_proof(&self, proof: &ManaBalancesProof, account_id: &String) -> (r: bool)
        ensures
            r == (proof_verdict(
                proof.mana_balance,
                proof.collateral_mana_balance,
                proof.voting_power,
                proof.signer_address@,
                proof.signature@,
                message_signer(
                    account_id@,
                    proof.mana_balance,
                    proof.collateral_mana_balance,
                    proof.signature@,
                ),
            ) == ProofVerdict::Trusted),
            proof.signature@.len() == 0 ==> !r,
    {
        check_aurora_proof(proof, account_id) == ProofVerdict::Trusted
    }

    /// Whether signed balances of `account_id` are trusted; see
    /// [`check_aurora_balance`]. An empty signature is never trusted.
    pub fn verify_aurora_balance(
        &self,
        account_id: &String,
        mana_balance: u128,
        collateral_mana_balance: u128,
        signature: &Vec<u8>,
        signer_address: &String,
    ) -> (r: bool)
        ensures
            r == (balance_verdict(
                mana_balance,
                collateral_mana_balance,
                signer_address@,
                signature@,
                message_signer(account_id@, mana_balance, collateral_mana_balance, signature@),
            ) == ProofVerdict::Trusted),
            signature@.len() == 0 ==> !r,
    {
        check_aurora_balance(
            account_id,
            mana_balance,
            collateral_mana_balance,
            signature,
            signer_address,
        ) == ProofVerdict::Trusted
    }
}

/// The contract: its owner and its voting module.
pub struct Contract {
    pub owner_id: String,
    pub voting_module: VotingModule,
}

impl Contract {
    /// A contract owned by `owner_id`, with an empty voting module of the
    /// same owner.
    pub fn new(owner_id: String) -> (r: Contract)
        ensures
            r.owner_id@ == owner_id@,
            r.voting_module.wf(),
            r.voting_module.owner() == owner_id@,
            r.voting_module.proposals_view() == Seq::<ProposalView>::empty(),
            r.voting_module.ledger() == Seq::<ContributionView>::empty(),
            r.voting_module.snapshots() == Map::<Seq<char>, GovernanceData>::empty(),
    {
        let voting_module = VotingModule::new(owner_id.clone());
        Contract { owner_id, voting_module }
    }
}

/// When either circulating supply is zero, every account's governance power
/// is exactly zero, whatever its balances and whatever the ledger holds.
pub proof fn lemma_zero_supply_zero_power(
    ledger: Seq<ContributionView>,
    account: Seq<char>,
    reading: OracleReading,
)
    requires
        reading.circulating_mana == 0 || reading.circulating_collateral == 0,
    ensures
        voting_power_of(ledger, account, ProposalType::Governance, reading) == Some(0u128),
{
}

} // verus!
