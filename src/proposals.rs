//! The proposal registry: proposals, their tallies and voter sets, and the
//! lifecycle Active → Approved | Rejected driven by applied votes.

use crate::error::{kind_of, DaoError, ErrorKind};
use vstd::prelude::*;

verus! {

/// Where a proposal stands. Approved and Rejected are terminal.
#[derive(Clone, Copy, Debug, PartialEq, Eq, Structural)]
pub enum ProposalStatus {
    Active,
    Approved,
    Rejected,
}

/// The scope of a proposal, which decides how voting power is measured.
#[derive(Clone, Copy, Debug, PartialEq, Eq, Structural)]
pub enum ProposalType {
    /// Organization-wide: power comes from cross-chain balances.
    Governance,
    /// Scoped to one project: power comes from contribution hours.
    Project { project_id: u64 },
}

/// A proposal with its tallies and the principals that voted on it.
pub struct Proposal {
    pub id: u64,
    pub title: String,
    pub description: String,
    pub proposer: String,
    pub proposal_type: ProposalType,
    pub votes_for: u128,
    pub votes_against: u128,
    pub voters: Vec<String>,
    pub status: ProposalStatus,
}

/// The mathematical value of a [`Proposal`].
pub struct ProposalView {
    pub id: u64,
    pub title: Seq<char>,
    pub description: Seq<char>,
    pub proposer: Seq<char>,
    pub proposal_type: ProposalType,
    pub votes_for: u128,
    pub votes_against: u128,
    pub voters: Seq<Seq<char>>,
    pub status: ProposalStatus,
}

impl View for Proposal {
    type V = ProposalView;

    open spec fn view(&self) -> ProposalView {
        ProposalView {
            id: self.id,
            title: self.title@,
            description: self.description@,
            proposer: self.proposer@,
            proposal_type: self.proposal_type,
            votes_for: self.votes_for,
            votes_against: self.votes_against,
            voters: self.voters@.map_values(|v: String| v@),
            status: self.status,
        }
    }
}

/// The status that a tally calls for: approved on a two-thirds majority
/// (`for > 2 * against`), rejected once `against >= for`, active otherwise.
pub open spec fn status_for(votes_for: int, votes_against: int) -> ProposalStatus {
    if votes_for > 2 * votes_against {
        ProposalStatus::Approved
    } else if votes_against >= votes_for {
        ProposalStatus::Rejected
    } else {
        ProposalStatus::Active
    }
}

/// The freshly created proposal.
pub open spec fn new_proposal(
    id: u64,
    title: Seq<char>,
    description: Seq<char>,
    proposer: Seq<char>,
    proposal_type: ProposalType,
) -> ProposalView {
    ProposalView {
        id,
        title,
        description,
        proposer,
        proposal_type,
        votes_for: 0,
        votes_against: 0,
        voters: Seq::empty(),
        status: ProposalStatus::Active,
    }
}

/// What a vote of `power` by `voter` does to a proposal. `None` stands for a
/// power too large for a `u128`. The checks come in this order: the proposal
/// is active, the voter has not voted, the power is not zero, the new tally
/// fits.
pub open spec fn vote_outcome(
    p: ProposalView,
    voter: Seq<char>,
    approve: bool,
    power: Option<u128>,
) -> Result<ProposalView, DaoError> {
    if p.status != ProposalStatus::Active {
        Err(DaoError::ProposalNotActive)
    } else if p.voters.contains(voter) {
        Err(DaoError::AlreadyVoted)
    } else if power == Some(0u128) {
        Err(DaoError::NoVotingPower)
    } else {
        match power {
            None => Err(DaoError::TallyOverflow),
            Some(w) => {
                let f = if approve {
                    p.votes_for + w
                } else {
                    p.votes_for as int
                };
                let a = if approve {
                    p.votes_against as int
                } else {
                    p.votes_against + w
                };
                if f > u128::MAX || a > u128::MAX {
                    Err(DaoError::TallyOverflow)
                } else {
                    Ok(
                        ProposalView {
                            votes_for: f as u128,
                            votes_against: a as u128,
                            voters: p.voters.push(voter),
                            status: status_for(f, a),
                            ..p
                        },
                    )
                }
            },
        }
    }
}

/// The status for a tally, as [`status_for`] states it; no intermediate value
/// overflows.
pub fn tally_status(votes_for: u128, votes_against: u128) -> (r: ProposalStatus)
    ensures
        r == status_for(votes_for as int, votes_against as int),
{
    if votes_for > votes_against && votes_for - votes_against > votes_against {
        ProposalStatus::Approved
    } else if votes_against >= votes_for {
        ProposalStatus::Rejected
    } else {
        ProposalStatus::Active
    }
}

impl Proposal {
    /// An active proposal with empty tallies and no voters.
    pub fn new(
        id: u64,
        title: String,
        description: String,
        proposer: String,
        proposal_type: ProposalType,
    ) -> (r: Proposal)
        ensures
            r@ == new_proposal(id, title@, description@, proposer@, proposal_type),
    {
        let r = Proposal {
            id,
            title,
            description,
            proposer,
            proposal_type,
            votes_for: 0,
            votes_against: 0,
            voters: Vec::new(),
            status: ProposalStatus::Active,
        };
        assert(r@.voters =~= Seq::<Seq<char>>::empty());
        r
    }

    /// Whether `voter` has voted on this proposal.
    pub fn has_voted(&self, voter: &String) -> (r: bool)
        ensures
            r == self@.voters.contains(voter@),
    {
        let mut i: usize = 0;
        while i < self.voters.len()
            invariant
                i <= self.voters@.len(),
                forall|j: int| 0 <= j < i ==> self@.voters[j] != voter@,
            decreases self.voters@.len() - i,
        {
            if self.voters[i] == *voter {
                assert(self@.voters[i as int] == voter@);
                return true;
            }
            i = i + 1;
        }
        false
    }

    /// Applies a vote of `power` by `voter`, for or against, and re-evaluates
    /// the status. `None` stands for a power too large for a `u128`. On an
    /// error nothing changes.
    pub fn vote(&mut self, voter: &String, approve: bool, power: Option<u128>) -> (r: Result<
        (),
        DaoError,
    >)
        ensures
            match vote_outcome(old(self)@, voter@, approve, power) {
                Ok(next) => r is Ok && final(self)@ == next,
                Err(e) => r == Err::<(), DaoError>(e) && final(self)@ == old(self)@,
            },
    {
        if self.status != ProposalStatus::Active {
            return Err(DaoError::ProposalNotActive);
        }
        if self.has_voted(voter) {
            return Err(DaoError::AlreadyVoted);
        }
        let w = match power {
            Some(w) => w,
            None => {
                return Err(DaoError::TallyOverflow);
            },
        };
        if w == 0 {
            return Err(DaoError::NoVotingPower);
        }
        if approve {
            match self.votes_for.checked_add(w) {
                Some(v) => {
                    self.votes_for = v;
                },
                None => {
                    return Err(DaoError::TallyOverflow);
                },
            }
        } else {
            match self.votes_against.checked_add(w) {
                Some(v) => {
                    self.votes_against = v;
                },
                None => {
                    return Err(DaoError::TallyOverflow);
                },
            }
        }
        self.voters.push(voter.clone());
        self.status = tally_status(self.votes_for, self.votes_against);
        assert(self@.voters =~= old(self)@.voters.push(voter@));
        Ok(())
    }
}

/// The proposal with `id` in a registry whose proposals carry ids 1, 2, ...
pub open spec fn find_proposal(s: Seq<ProposalView>, id: u64) -> Option<ProposalView> {
    if 1 <= id <= s.len() {
        Some(s[id - 1])
    } else {
        None
    }
}

/// What a vote does to the registry: the proposal must exist, then
/// [`vote_outcome`] decides.
pub open spec fn registry_vote_outcome(
    s: Seq<ProposalView>,
    id: u64,
    voter: Seq<char>,
    approve: bool,
    power: Option<u128>,
) -> Result<Seq<ProposalView>, DaoError> {
    match find_proposal(s, id) {
        None => Err(DaoError::ProposalNotFound),
        Some(p) => match vote_outcome(p, voter, approve, power) {
            Ok(q) => Ok(s.update(id - 1, q)),
            Err(e) => Err(e),
        },
    }
}

/// All proposals, under ids assigned in creation order from 1.
pub struct Proposals {
    proposals: Vec<Proposal>,
}

impl View for Proposals {
    type V = Seq<ProposalView>;

    closed spec fn view(&self) -> Seq<ProposalView> {
        self.proposals@.map_values(|p: Proposal| p@)
    }
}

impl Proposals {
    /// Each proposal carries its position plus one as id.
    pub open spec fn wf(&self) -> bool {
        forall|i: int| 0 <= i < self@.len() ==> #[trigger] self@[i].id == i + 1
    }

    /// An empty registry.
    pub fn new() -> (r: Proposals)
        ensures
            r.wf(),
            r@ == Seq::<ProposalView>::empty(),
    {
        let r = Proposals { proposals: Vec::new() };
        assert(r@ =~= Seq::<ProposalView>::empty());
        r
    }

    /// Number of proposals created so far.
    pub fn len(&self) -> (r: usize)
        ensures
            r == self@.len(),
    {
        self.proposals.len()
    }

    /// Creates an active proposal under the next id and returns that id.
    pub fn create_proposal(
        &mut self,
        title: String,
        description: String,
        proposer: String,
        proposal_type: ProposalType,
    ) -> (r: u64)
        requires
            old(self).wf(),
            old(self)@.len() < u64::MAX,
        ensures
            final(self).wf(),
            r == old(self)@.len() + 1,
            final(self)@ == old(self)@.push(
                new_proposal(r, title@, description@, proposer@, proposal_type),
            ),
    {
        let id = (self.proposals.len() as u64) + 1;
        let p = Proposal::new(id, title, description, proposer, proposal_type);
        self.proposals.push(p);
        assert(self@ =~= old(self)@.push(
            new_proposal(id, title@, description@, proposer@, proposal_type),
        ));
        id
    }

    /// The proposal with `id`, if any.
    pub fn get_proposal(&self, id: u64) -> (r: Option<&Proposal>)
        ensures
            match r {
                Some(p) => find_proposal(self@, id) == Some(p@),
                None => find_proposal(self@, id) is None,
            },
    {
        if id >= 1 && id <= self.proposals.len() as u64 {
            Some(&self.proposals[(id - 1) as usize])
        } else {
            None
        }
    }

    /// All proposals in creation order.
    pub fn get_all_proposals(&self) -> (r: &Vec<Proposal>)
        ensures
            r@.map_values(|p: Proposal| p@) == self@,
    {
        &self.proposals
    }

    /// Applies a vote to the proposal with `id`; see [`registry_vote_outcome`].
    /// On an error nothing changes.
    pub fn vote(
        &mut self,
        id: u64,
        voter: &String,
        approve: bool,
        power: Option<u128>,
    ) -> (r: Result<(), DaoError>)
        requires
            old(self).wf(),
        ensures
            final(self).wf(),
            match registry_vote_outcome(old(self)@, id, voter@, approve, power) {
                Ok(next) => r is Ok && final(self)@ == next,
                Err(e) => r == Err::<(), DaoError>(e) && final(self)@ == old(self)@,
            },
    {
        if id == 0 || id > self.proposals.len() as u64 {
            return Err(DaoError::ProposalNotFound);
        }
        let idx = (id - 1) as usize;
        let r = self.proposals[idx].vote(voter, approve, power);
        proof {
            assert(self@ =~= old(self)@.update(idx as int, self.proposals@[idx as int]@));
            if r is Err {
                assert(self@ =~= old(self)@);
            }
        }
        r
    }
}

/// A vote that succeeds was cast on an active proposal and only raises its
/// tallies; a vote on an approved or rejected proposal always fails.
pub proof fn lemma_vote_monotone(
    p: ProposalView,
    voter: Seq<char>,
    approve: bool,
    power: Option<u128>,
)
    ensures
        p.status != ProposalStatus::Active ==> vote_outcome(p, voter, approve, power) is Err,
        match vote_outcome(p, voter, approve, power) {
            Ok(q) => p.status == ProposalStatus::Active && q.votes_for >= p.votes_for
                && q.votes_against >= p.votes_against,
            Err(_) => true,
        },
{
}

/// Across the registry, a vote never lowers a tally and never changes a
/// proposal that is approved or rejected; a failed vote changes nothing (the
/// `vote` methods keep the registry as it was).
pub proof fn lemma_terminal_proposals_frozen(
    s: Seq<ProposalView>,
    id: u64,
    voter: Seq<char>,
    approve: bool,
    power: Option<u128>,
)
    ensures
        match registry_vote_outcome(s, id, voter, approve, power) {
            Ok(t) => t.len() == s.len() && forall|i: int|
                0 <= i < s.len() ==> {
                    &&& (s[i].status != ProposalStatus::Active ==> #[trigger] t[i] == s[i])
                    &&& t[i].votes_for >= s[i].votes_for
                    &&& t[i].votes_against >= s[i].votes_against
                },
            Err(_) => true,
        },
{
    if let Ok(t) = registry_vote_outcome(s, id, voter, approve, power) {
        lemma_vote_monotone(s[id - 1], voter, approve, power);
    }
}

/// No principal votes twice on a proposal: once a vote of `voter` on `id`
/// succeeded, every later vote of `voter` on `id` fails with a state error.
pub proof fn lemma_no_double_vote(
    s: Seq<ProposalView>,
    id: u64,
    voter: Seq<char>,
    first: bool,
    first_power: Option<u128>,
    second: bool,
    second_power: Option<u128>,
)
    requires
        registry_vote_outcome(s, id, voter, first, first_power) is Ok,
    ensures
        match registry_vote_outcome(s, id, voter, first, first_power) {
            Ok(t) => match registry_vote_outcome(t, id, voter, second, second_power) {
                Ok(_) => false,
                Err(e) => kind_of(e) == ErrorKind::State && (e == DaoError::ProposalNotActive || e
                    == DaoError::AlreadyVoted),
            },
            Err(_) => true,
        },
{
    if let Ok(t) = registry_vote_outcome(s, id, voter, first, first_power) {
        let q = t[id - 1];
        assert(q.voters.last() == voter);
        assert(q.voters.contains(voter));
    }
}

} // verus!
