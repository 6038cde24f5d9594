use anchor_lang::prelude::Pubkey;
use anchor_voting_dapp::address::Address;
use anchor_voting_dapp::derive::{derive_proposal_id, derive_vote_id, program_id};
use std::str::FromStr;

fn addr(fill: u8) -> Address {
    Address::new([fill; 32])
}

#[test]
fn program_id_is_the_declared_address() {
    let declared = Pubkey::from_str("FVGuJ5boyFbvbwtgLPJgg8wijgWZp4BNuEKskWeRjwjV").unwrap();
    assert_eq!(program_id().to_bytes(), declared.to_bytes());
}

#[test]
fn address_keeps_its_bytes() {
    let mut bytes = [0u8; 32];
    for (i, b) in bytes.iter_mut().enumerate() {
        *b = i as u8;
    }
    let a = Address::new(bytes);
    assert_eq!(a.to_bytes(), bytes);
    assert_eq!(a, Address::new(bytes));
}

#[test]
fn addresses_differ_in_any_byte() {
    let a = addr(7);
    let mut bytes = [7u8; 32];
    bytes[31] = 8;
    assert_ne!(a, Address::new(bytes));
    let mut first = [7u8; 32];
    first[0] = 6;
    assert_ne!(a, Address::new(first));
}

#[test]
fn proposal_key_is_the_program_derived_address() {
    let proposer = addr(1);
    let program = Pubkey::new_from_array(program_id().to_bytes());
    let nonce: u64 = 1;
    let (expected, bump) = Pubkey::find_program_address(
        &[b"proposal", &proposer.to_bytes(), &nonce.to_le_bytes()],
        &program,
    );
    let (key, found_bump) = derive_proposal_id(&proposer, nonce).unwrap();
    assert_eq!(key.to_bytes(), expected.to_bytes());
    assert_eq!(found_bump, bump);
    assert_ne!(key, proposer);
    assert_ne!(key, program_id());
}

#[test]
fn vote_key_is_the_program_derived_address() {
    let proposal = addr(9);
    let voter = addr(2);
    let program = Pubkey::new_from_array(program_id().to_bytes());
    let (expected, bump) =
        Pubkey::find_program_address(&[b"voter", &proposal.to_bytes(), &voter.to_bytes()], &program);
    let (key, found_bump) = derive_vote_id(&proposal, &voter).unwrap();
    assert_eq!(key.to_bytes(), expected.to_bytes());
    assert_eq!(found_bump, bump);
    assert_ne!(key, proposal);
    assert_ne!(key, voter);
}

#[test]
fn nonce_is_encoded_little_endian() {
    let proposer = addr(1);
    let program = Pubkey::new_from_array(program_id().to_bytes());
    let nonce: u64 = 0x0102_0304_0506_0708;
    let (expected, _) = Pubkey::find_program_address(
        &[b"proposal", &proposer.to_bytes(), &[8, 7, 6, 5, 4, 3, 2, 1]],
        &program,
    );
    let (key, _) = derive_proposal_id(&proposer, nonce).unwrap();
    assert_eq!(key.to_bytes(), expected.to_bytes());
}

#[test]
fn derivation_is_deterministic() {
    let proposer = addr(3);
    assert_eq!(derive_proposal_id(&proposer, 5), derive_proposal_id(&proposer, 5));
    let proposal = addr(4);
    assert_eq!(derive_vote_id(&proposal, &proposer), derive_vote_id(&proposal, &proposer));
}

#[test]
fn different_inputs_give_different_keys() {
    let a = addr(1);
    let b = addr(2);
    let (a1, _) = derive_proposal_id(&a, 1).unwrap();
    let (a2, _) = derive_proposal_id(&a, 2).unwrap();
    let (b1, _) = derive_proposal_id(&b, 1).unwrap();
    assert_ne!(a1, a2);
    assert_ne!(a1, b1);
    assert_ne!(a2, b1);
    let (v_ab, _) = derive_vote_id(&a, &b).unwrap();
    let (v_ba, _) = derive_vote_id(&b, &a).unwrap();
    assert_ne!(v_ab, v_ba);
}

#[test]
fn proposal_and_vote_keys_are_in_different_domains() {
    let a = addr(1);
    let b = addr(2);
    let (vote_key, _) = derive_vote_id(&a, &b).unwrap();
    for nonce in 0..16u64 {
        let (proposal_key, _) = derive_proposal_id(&a, nonce).unwrap();
        assert_ne!(proposal_key, vote_key);
    }
}

#[test]
fn derived_keys_are_off_the_curve() {
    let (key, _) = derive_proposal_id(&addr(1), 1).unwrap();
    assert!(!Pubkey::new_from_array(key.to_bytes()).is_on_curve());
}
