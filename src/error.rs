//! Errors of the voting calls. A failing call changes no state. Malformed
//! balance proofs are no error: they resolve to an untrusted verdict.

use vstd::prelude::*;

verus! {

/// The class an error belongs to.
#[derive(Clone, Copy, Debug, PartialEq, Eq, Structural)]
pub enum ErrorKind {
    /// A caller other than the owner attempted a privileged call.
    Authorization,
    /// The call does not fit the current state.
    State,
}

/// Why a call failed.
#[derive(Clone, Copy, Debug, PartialEq, Eq, Structural)]
pub enum DaoError {
    /// The caller is not the owner of the module.
    Unauthorized,
    /// No proposal has the given id.
    ProposalNotFound,
    /// The proposal is already approved or rejected.
    ProposalNotActive,
    /// The caller has already voted on the proposal.
    AlreadyVoted,
    /// The caller's voting power is zero.
    NoVotingPower,
    /// The vote would take a tally past the largest `u128`.
    TallyOverflow,
}

/// The class of an error: a non-owner's privileged call is an authorization
/// error, every other failure of a call is a state error.
pub open spec fn kind_of(e: DaoError) -> ErrorKind {
    if e == DaoError::Unauthorized {
        ErrorKind::Authorization
    } else {
        ErrorKind::State
    }
}

impl DaoError {
    /// The class of this error.
    pub fn kind(&self) -> (r: ErrorKind)
        ensures
            r == kind_of(*self),
    {
        match self {
            DaoError::Unauthorized => ErrorKind::Authorization,
            _ => ErrorKind::State,
        }
    }

    /// A description of this error for the caller.
    pub fn message(&self) -> &'static str {
        match self {
            DaoError::Unauthorized => "Only the owner can make this call",
            DaoError::ProposalNotFound => "Proposal not found",
            DaoError::ProposalNotActive => "Proposal is not active",
            DaoError::AlreadyVoted => "Voter has already voted",
            DaoError::NoVotingPower => "No voting power for this proposal",
            DaoError::TallyOverflow => "Vote tally would overflow",
        }
    }
}

} // verus!
