use sagahalla_dao::error::{DaoError, ErrorKind};
use sagahalla_dao::proposals::{tally_status, Proposal, ProposalStatus, ProposalType};
use sagahalla_dao::voting::{Contract, OracleReading, VotingModule};

fn owner() -> String {
    "alice.near".to_string()
}

fn no_reading() -> OracleReading {
    OracleReading::from_fetches(None, None)
}

fn reading(balance: u128, collateral: u128, circulating: u128, circulating_collateral: u128) -> OracleReading {
    OracleReading::from_fetches(Some((balance, collateral)), Some((circulating, circulating_collateral)))
}

#[test]
fn test_create_proposal() {
    let mut module = VotingModule::new(owner());
    let proposal_id = module.create_proposal(
        owner(),
        "Test proposal".to_string(),
        "Test proposal".to_string(),
        ProposalType::Governance,
    );
    assert_eq!(proposal_id, 1);
    let proposal = module.get_proposal(proposal_id).unwrap();
    assert_eq!(proposal.status, ProposalStatus::Active);
}

#[test]
fn proposal_ids_increase_from_one() {
    let mut module = VotingModule::new(owner());
    let a = module.create_proposal(owner(), "a".to_string(), "".to_string(), ProposalType::Governance);
    let b = module.create_proposal(owner(), "b".to_string(), "".to_string(), ProposalType::Project { project_id: 7 });
    assert_eq!((a, b), (1, 2));
    assert_eq!(module.proposal_count(), 2);
    assert_eq!(module.get_all_proposals().len(), 2);
    assert_eq!(module.get_proposal(2).unwrap().title, "b");
    assert!(module.get_proposal(0).is_none());
    assert!(module.get_proposal(3).is_none());
}

#[test]
fn contributions_accumulate() {
    let mut module = VotingModule::new(owner());
    let a = "bob.near".to_string();
    module.register_project_contribution(&owner(), a.clone(), 3, 40, 1000).unwrap();
    module.register_project_contribution(&owner(), a.clone(), 3, 60, 2000).unwrap();
    assert_eq!(module.get_contribution(&a, 3), 100);
    assert_eq!(module.total_contribution_hours(3), 100);
    let records = module.get_project_contributions(&a).unwrap();
    assert_eq!(records.len(), 2);
    assert_eq!(records[0].contribution_amount, 40);
    assert_eq!(records[1].timestamp, 2000);
    assert!(module.get_project_contributions(&"carol.near".to_string()).is_none());
}

#[test]
fn contribution_requires_owner() {
    let mut module = VotingModule::new(owner());
    let r = module.add_project_contribution(&"mallory.near".to_string(), "bob.near".to_string(), 1, 5, 0);
    assert_eq!(r, Err(DaoError::Unauthorized));
    assert_eq!(r.unwrap_err().kind(), ErrorKind::Authorization);
    assert_eq!(module.total_contribution_hours(1), 0);
}

#[test]
fn governance_power_example() {
    let module = VotingModule::new(owner());
    let r = reading(100_000, 50_000, 1_000_000, 1_000_000);
    assert_eq!(module.get_voting_power(&"bob.near".to_string(), &ProposalType::Governance, &r), Some(150_000));
}

#[test]
fn governance_power_zero_supply() {
    let module = VotingModule::new(owner());
    let bob = "bob.near".to_string();
    assert_eq!(module.get_voting_power(&bob, &ProposalType::Governance, &reading(5, 5, 0, 10)), Some(0));
    assert_eq!(module.get_voting_power(&bob, &ProposalType::Governance, &reading(5, 5, 10, 0)), Some(0));
    assert_eq!(module.get_voting_power(&bob, &ProposalType::Governance, &no_reading()), Some(0));
}

#[test]
fn project_power_is_percentage() {
    let mut module = VotingModule::new(owner());
    module.register_project_contribution(&owner(), "bob.near".to_string(), 9, 30, 0).unwrap();
    module.register_project_contribution(&owner(), "carol.near".to_string(), 9, 70, 0).unwrap();
    module.register_project_contribution(&owner(), "bob.near".to_string(), 8, 1, 0).unwrap();
    let t = ProposalType::Project { project_id: 9 };
    assert_eq!(module.get_voting_power(&"bob.near".to_string(), &t, &no_reading()), Some(30));
    assert_eq!(module.get_voting_power(&"carol.near".to_string(), &t, &no_reading()), Some(70));
    assert_eq!(module.get_voting_power(&"dave.near".to_string(), &t, &no_reading()), Some(0));
    let empty = ProposalType::Project { project_id: 4 };
    assert_eq!(module.get_voting_power(&"bob.near".to_string(), &empty, &no_reading()), Some(0));
}

#[test]
fn tally_thresholds() {
    assert_eq!(tally_status(10, 4), ProposalStatus::Approved);
    assert_eq!(tally_status(5, 5), ProposalStatus::Rejected);
    assert_eq!(tally_status(8, 4), ProposalStatus::Active);
    assert_eq!(tally_status(0, 0), ProposalStatus::Rejected);
    assert_eq!(tally_status(u128::MAX, u128::MAX / 2), ProposalStatus::Approved);
}

#[test]
fn vote_approves_on_two_thirds() {
    let mut p = Proposal::new(1, "t".to_string(), "d".to_string(), owner(), ProposalType::Governance);
    p.votes_against = 4;
    assert_eq!(p.vote(&"bob.near".to_string(), true, Some(10)), Ok(()));
    assert_eq!((p.votes_for, p.votes_against), (10, 4));
    assert_eq!(p.status, ProposalStatus::Approved);
    let mut q = Proposal::new(2, "t".to_string(), "d".to_string(), owner(), ProposalType::Governance);
    q.votes_for = 5;
    assert_eq!(q.vote(&"bob.near".to_string(), false, Some(5)), Ok(()));
    assert_eq!(q.status, ProposalStatus::Rejected);
}

#[test]
fn vote_applies_governance_power() {
    let mut module = VotingModule::new(owner());
    let id = module.create_proposal(owner(), "t".to_string(), "d".to_string(), ProposalType::Governance);
    let r = reading(100_000, 50_000, 1_000_000, 1_000_000);
    assert_eq!(module.vote(&"bob.near".to_string(), id, true, &r), Ok(()));
    let p = module.get_proposal(id).unwrap();
    assert_eq!((p.votes_for, p.votes_against), (150_000, 0));
    assert_eq!(p.status, ProposalStatus::Approved);
    assert_eq!(p.voters, vec!["bob.near".to_string()]);
}

#[test]
fn second_vote_fails_and_keeps_tallies() {
    let mut module = VotingModule::new(owner());
    module.register_project_contribution(&owner(), "bob.near".to_string(), 2, 10, 0).unwrap();
    let id = module.create_proposal(owner(), "t".to_string(), "d".to_string(), ProposalType::Project { project_id: 2 });
    let bob = "bob.near".to_string();
    assert_eq!(module.vote(&bob, id, false, &no_reading()), Ok(()));
    let before = (module.get_proposal(id).unwrap().votes_for, module.get_proposal(id).unwrap().votes_against);
    assert_eq!(before, (0, 100));
    let second = module.vote(&bob, id, true, &no_reading());
    assert!(second.is_err());
    assert_eq!(second.unwrap_err().kind(), ErrorKind::State);
    let p = module.get_proposal(id).unwrap();
    assert_eq!((p.votes_for, p.votes_against), before);
}

#[test]
fn already_voted_on_active_proposal() {
    let mut p = Proposal::new(1, "t".to_string(), "d".to_string(), owner(), ProposalType::Governance);
    p.votes_for = 3;
    p.votes_against = 2;
    p.voters.push("bob.near".to_string());
    assert_eq!(p.vote(&"bob.near".to_string(), true, Some(1)), Err(DaoError::AlreadyVoted));
    assert_eq!((p.votes_for, p.votes_against), (3, 2));
    assert_eq!(p.vote(&"carol.near".to_string(), true, Some(1)), Ok(()));
    assert_eq!(p.status, ProposalStatus::Active);
}

#[test]
fn terminal_proposal_is_frozen() {
    let mut module = VotingModule::new(owner());
    let id = module.create_proposal(owner(), "t".to_string(), "d".to_string(), ProposalType::Governance);
    let r = reading(1, 1, 10, 10);
    module.vote(&"bob.near".to_string(), id, true, &r).unwrap();
    assert_eq!(module.get_proposal(id).unwrap().status, ProposalStatus::Approved);
    assert_eq!(module.vote(&"carol.near".to_string(), id, false, &r), Err(DaoError::ProposalNotActive));
    let p = module.get_proposal(id).unwrap();
    assert_eq!((p.votes_for, p.votes_against), (200_000, 0));
    assert_eq!(p.voters.len(), 1);
}

#[test]
fn vote_errors() {
    let mut module = VotingModule::new(owner());
    let bob = "bob.near".to_string();
    assert_eq!(module.vote(&bob, 1, true, &no_reading()), Err(DaoError::ProposalNotFound));
    let id = module.create_proposal(owner(), "t".to_string(), "d".to_string(), ProposalType::Governance);
    assert_eq!(module.vote(&bob, id, true, &no_reading()), Err(DaoError::NoVotingPower));
    assert_eq!(module.vote(&bob, id, true, &reading(u128::MAX, 0, 1, 1)), Err(DaoError::TallyOverflow));
    assert_eq!(module.get_proposal(id).unwrap().status, ProposalStatus::Active);
    let mut p = Proposal::new(1, "t".to_string(), "d".to_string(), owner(), ProposalType::Governance);
    p.votes_for = u128::MAX - 1;
    p.votes_against = u128::MAX / 2;
    assert_eq!(p.vote(&bob, true, Some(2)), Err(DaoError::TallyOverflow));
    assert_eq!(p.votes_for, u128::MAX - 1);
    assert_eq!(p.vote(&bob, true, None), Err(DaoError::TallyOverflow));
}

#[test]
fn shld_holders_registration() {
    let mut module = VotingModule::new(owner());
    let bob = "bob.near".to_string();
    assert_eq!(module.register_shld_holder(&bob, bob.clone()), Err(DaoError::Unauthorized));
    assert!(!module.is_shld_holder(&bob));
    module.register_shld_holder(&owner(), bob.clone()).unwrap();
    module.register_shld_holder(&owner(), bob.clone()).unwrap();
    assert!(module.is_shld_holder(&bob));
    assert!(!module.is_shld_holder(&"carol.near".to_string()));
}

#[test]
fn governance_snapshots() {
    let mut module = VotingModule::new(owner());
    let bob = "bob.near".to_string();
    assert!(!module.verify_cross_chain_data(&bob, 1, 2, 3, 4));
    assert_eq!(module.update_governance_data(&bob, bob.clone(), 1, 2, 3, 4), Err(DaoError::Unauthorized));
    module.update_governance_data(&owner(), bob.clone(), 1, 2, 3, 4).unwrap();
    assert!(module.verify_cross_chain_data(&bob, 1, 2, 3, 4));
    assert!(!module.verify_cross_chain_data(&bob, 1, 2, 3, 5));
    assert!(!module.verify_cross_chain_data(&bob, 9, 2, 3, 4));
    module.update_governance_data(&owner(), bob.clone(), 10, 20, 30, 40).unwrap();
    let d = module.get_governance_data(&bob).unwrap();
    assert_eq!((d.mana_balance, d.mana_collateral_balance, d.voting_power, d.transaction_id), (10, 20, 30, Some(40)));
    assert!(!module.verify_cross_chain_data(&bob, 1, 2, 3, 4));
    assert!(module.get_governance_data(&"carol.near".to_string()).is_none());
}

#[test]
fn oracle_fallback_is_zero() {
    let r = OracleReading::from_fetches(Some((3, 4)), None);
    assert_eq!((r.mana_balance, r.collateral_mana_balance, r.circulating_mana, r.circulating_collateral), (3, 4, 0, 0));
}

#[test]
fn contract_starts_empty() {
    let c = Contract::new(owner());
    assert_eq!(c.owner_id, owner());
    assert_eq!(c.voting_module.owner_id(), &owner());
    assert_eq!(c.voting_module.proposal_count(), 0);
}

#[test]
fn error_messages() {
    assert_eq!(DaoError::AlreadyVoted.message(), "Voter has already voted");
    assert_eq!(DaoError::ProposalNotFound.kind(), ErrorKind::State);
}
