use voting_on_solana::addressing::program_id;
use voting_on_solana::capacity::{MAX_DESC_BYTES, MAX_VOTERS};
use voting_on_solana::errors::VoteError;
use voting_on_solana::identity::Identity;
use voting_on_solana::proposal::{initialize_proposal, Proposal};
use voting_on_solana::registry::Voters;
use voting_on_solana::tally::vote;

fn ident(tag: u8) -> Identity {
    Identity::from_bytes(vec![tag; 32])
}

fn proposal_with_id(id: u8, owner: &Identity) -> Proposal {
    initialize_proposal(String::from("Ban X?"), id, owner).unwrap()
}

#[test]
fn derive_is_deterministic() {
    let owner = ident(11);
    let seed = b"p1".to_vec();
    let first = voting_on_solana::addressing::derive(&seed, &owner);
    let second = voting_on_solana::addressing::derive(&seed, &owner);
    assert_eq!(first, second);
    assert!(first.is_some());
}

#[test]
fn derive_differs_for_different_owners() {
    let seed = b"p1".to_vec();
    let (addr_a, _) = voting_on_solana::addressing::derive(&seed, &ident(11)).unwrap();
    let (addr_b, _) = voting_on_solana::addressing::derive(&seed, &ident(12)).unwrap();
    assert_ne!(addr_a, addr_b);
}

#[test]
fn derive_matches_ledger_derivation() {
    let owner = ident(11);
    let seed = b"p1".to_vec();
    let owner_pk = solana_pubkey::Pubkey::try_from(owner.as_bytes().as_slice()).unwrap();
    let program_pk = solana_pubkey::Pubkey::try_from(program_id().as_slice()).unwrap();
    let (expected_addr, expected_bump) =
        solana_pubkey::Pubkey::find_program_address(&[b"p1", owner_pk.as_ref()], &program_pk);
    let (addr, bump) = voting_on_solana::addressing::derive(&seed, &owner).unwrap();
    assert_eq!(addr, expected_addr.to_bytes().to_vec());
    assert_eq!(bump, expected_bump);
}

#[test]
fn initialize_proposal_sets_fields() {
    let owner = ident(1);
    let p = initialize_proposal(String::from("Ban X?"), 7, &owner).unwrap();
    assert_eq!(p.id, 7);
    assert_eq!(p.desc, "Ban X?");
    assert_eq!(p.up_votes, 0);
    assert_eq!(p.down_votes, 0);
    assert_eq!(p.total_votes, 0);
    assert!(p.owner == owner);
}

#[test]
fn initialize_proposal_rejects_long_description() {
    let owner = ident(1);
    let long_desc: String = "x".repeat(MAX_DESC_BYTES + 1);
    assert_eq!(
        initialize_proposal(long_desc, 7, &owner).unwrap_err(),
        VoteError::CapacityExceeded
    );
    let full_desc: String = "x".repeat(MAX_DESC_BYTES);
    assert!(initialize_proposal(full_desc, 7, &owner).is_ok());
}

#[test]
fn submit_voters_dedups_across_calls() {
    let voter_b = ident(2);
    let voter_c = ident(3);
    let voter_d = ident(4);
    let mut registry = Voters::new();
    registry
        .submit_voters(7, &vec![voter_b.clone(), voter_c.clone()])
        .unwrap();
    registry
        .submit_voters(7, &vec![voter_c.clone(), voter_d.clone()])
        .unwrap();
    assert_eq!(registry.voters.len(), 3);
    assert!(registry.voters[0].pubkey == voter_b);
    assert!(registry.voters[1].pubkey == voter_c);
    assert!(registry.voters[2].pubkey == voter_d);
    // The duplicate C was skipped; D keeps its position within its own batch.
    assert_eq!(registry.voters[0].id, 0);
    assert_eq!(registry.voters[1].id, 1);
    assert_eq!(registry.voters[2].id, 1);
    for entry in registry.voters.iter() {
        assert_eq!(entry.proposal_id, 7);
        assert!(!entry.voted);
    }
}

#[test]
fn submit_voters_is_idempotent() {
    let batch = vec![ident(2), ident(3)];
    let mut registry = Voters::new();
    registry.submit_voters(7, &batch).unwrap();
    registry.submit_voters(7, &batch).unwrap();
    assert_eq!(registry.voters.len(), 2);
    assert!(registry.voters[0].pubkey == batch[0]);
    assert!(registry.voters[1].pubkey == batch[1]);
    assert_eq!(registry.voters[0].id, 0);
    assert_eq!(registry.voters[1].id, 1);
}

#[test]
fn submit_voters_dedups_within_batch() {
    let voter_b = ident(2);
    let voter_c = ident(3);
    let mut registry = Voters::new();
    registry
        .submit_voters(7, &vec![voter_b.clone(), voter_b.clone(), voter_c.clone()])
        .unwrap();
    // One duplicate in the middle of a batch must not drop later candidates.
    assert_eq!(registry.voters.len(), 2);
    assert!(registry.voters[0].pubkey == voter_b);
    assert!(registry.voters[1].pubkey == voter_c);
    assert_eq!(registry.voters[1].id, 2);
}

#[test]
fn submit_voters_rejects_overfull_batch_whole() {
    let mut registry = Voters::new();
    let mut batch = Vec::new();
    for tag in 0..(MAX_VOTERS as u8 + 1) {
        batch.push(ident(tag));
    }
    assert_eq!(
        registry.submit_voters(7, &batch).unwrap_err(),
        VoteError::CapacityExceeded
    );
    assert_eq!(registry.voters.len(), 0);
}

#[test]
fn submit_voters_leaves_registry_unchanged_on_capacity_error() {
    let mut registry = Voters::new();
    registry
        .submit_voters(7, &vec![ident(1), ident(2), ident(3)])
        .unwrap();
    assert_eq!(
        registry
            .submit_voters(7, &vec![ident(4), ident(5)])
            .unwrap_err(),
        VoteError::CapacityExceeded
    );
    assert_eq!(registry.voters.len(), 3);
    assert!(registry.voters[0].pubkey == ident(1));
    assert!(registry.voters[1].pubkey == ident(2));
    assert!(registry.voters[2].pubkey == ident(3));
    assert_eq!(registry.voters[0].id, 0);
}

#[test]
fn submit_voters_fills_registry_to_capacity() {
    let mut registry = Voters::new();
    let mut batch = Vec::new();
    for tag in 0..MAX_VOTERS as u8 {
        batch.push(ident(tag));
    }
    registry.submit_voters(7, &batch).unwrap();
    assert_eq!(registry.voters.len(), MAX_VOTERS);
}

#[test]
fn vote_tallies_an_up_vote() {
    let voter_b = ident(2);
    let mut proposal = proposal_with_id(7, &ident(1));
    let mut registry = Voters::new();
    registry.submit_voters(7, &vec![voter_b.clone()]).unwrap();
    vote(&mut proposal, &mut registry, &voter_b, 1).unwrap();
    assert_eq!(proposal.up_votes, 1);
    assert_eq!(proposal.down_votes, 0);
    assert_eq!(proposal.total_votes, 1);
    assert!(registry.voters[0].voted);
}

#[test]
fn vote_second_time_is_a_no_op() {
    let voter_b = ident(2);
    let mut proposal = proposal_with_id(7, &ident(1));
    let mut registry = Voters::new();
    registry.submit_voters(7, &vec![voter_b.clone()]).unwrap();
    vote(&mut proposal, &mut registry, &voter_b, 1).unwrap();
    // The entry is marked as having voted, so a second vote changes nothing.
    vote(&mut proposal, &mut registry, &voter_b, 1).unwrap();
    assert_eq!(proposal.up_votes, 1);
    assert_eq!(proposal.down_votes, 0);
    assert_eq!(proposal.total_votes, 1);
}

#[test]
fn vote_by_unregistered_actor_is_rejected() {
    let mut proposal = proposal_with_id(7, &ident(1));
    let mut registry = Voters::new();
    registry.submit_voters(7, &vec![ident(2)]).unwrap();
    assert_eq!(
        vote(&mut proposal, &mut registry, &ident(9), 1).unwrap_err(),
        VoteError::NotFound
    );
    assert_eq!(proposal.total_votes, 0);
}

#[test]
fn vote_for_another_proposal_is_rejected() {
    let voter_b = ident(2);
    let mut proposal = proposal_with_id(8, &ident(1));
    let mut registry = Voters::new();
    registry.submit_voters(7, &vec![voter_b.clone()]).unwrap();
    // B is registered for proposal 7, not for this proposal.
    assert_eq!(
        vote(&mut proposal, &mut registry, &voter_b, 1).unwrap_err(),
        VoteError::NotFound
    );
    assert_eq!(proposal.total_votes, 0);
    assert!(!registry.voters[0].voted);
}

#[test]
fn vote_coerces_any_other_value_to_a_down_vote() {
    let voter_b = ident(2);
    let voter_c = ident(3);
    let mut proposal = proposal_with_id(7, &ident(1));
    let mut registry = Voters::new();
    registry
        .submit_voters(7, &vec![voter_b.clone(), voter_c.clone()])
        .unwrap();
    vote(&mut proposal, &mut registry, &voter_b, 0).unwrap();
    vote(&mut proposal, &mut registry, &voter_c, 5).unwrap();
    assert_eq!(proposal.up_votes, 0);
    assert_eq!(proposal.down_votes, 2);
    assert_eq!(proposal.total_votes, 2);
}

#[test]
fn tallies_stay_consistent_and_monotonic() {
    let voters: Vec<Identity> = vec![ident(2), ident(3), ident(4)];
    let mut proposal = proposal_with_id(7, &ident(1));
    let mut registry = Voters::new();
    registry.submit_voters(7, &voters).unwrap();
    let mut last_up = 0u128;
    let mut last_down = 0u128;
    let mut last_total = 0u128;
    for (value, voter) in [(1u8, 0usize), (0, 1), (1, 2)] {
        vote(&mut proposal, &mut registry, &voters[voter], value).unwrap();
        assert_eq!(proposal.total_votes, proposal.up_votes + proposal.down_votes);
        assert!(proposal.up_votes >= last_up);
        assert!(proposal.down_votes >= last_down);
        assert!(proposal.total_votes >= last_total);
        last_up = proposal.up_votes;
        last_down = proposal.down_votes;
        last_total = proposal.total_votes;
    }
    assert_eq!(proposal.up_votes, 2);
    assert_eq!(proposal.down_votes, 1);
    assert_eq!(proposal.total_votes, 3);
}

#[test]
fn submit_voters_with_empty_batch_changes_nothing() {
    let mut registry = Voters::new();
    registry.submit_voters(7, &vec![ident(2)]).unwrap();
    registry.submit_voters(7, &Vec::new()).unwrap();
    assert_eq!(registry.voters.len(), 1);
    let mut empty = Voters::new();
    empty.submit_voters(7, &Vec::new()).unwrap();
    assert_eq!(empty.voters.len(), 0);
}

#[test]
fn one_actor_registered_for_two_proposals_votes_on_each() {
    let voter_b = ident(2);
    let mut registry = Voters::new();
    registry.submit_voters(7, &vec![voter_b.clone()]).unwrap();
    registry.submit_voters(8, &vec![voter_b.clone()]).unwrap();
    // The same key under two proposals is two distinct eligibility entries.
    assert_eq!(registry.voters.len(), 2);
    let mut first = proposal_with_id(7, &ident(1));
    let mut second = proposal_with_id(8, &ident(1));
    vote(&mut first, &mut registry, &voter_b, 1).unwrap();
    assert_eq!(first.up_votes, 1);
    assert_eq!(second.total_votes, 0);
    assert!(registry.voters[0].voted);
    assert!(!registry.voters[1].voted);
    vote(&mut second, &mut registry, &voter_b, 0).unwrap();
    assert_eq!(second.down_votes, 1);
    assert!(registry.voters[1].voted);
}
