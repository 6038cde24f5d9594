//! Derivation of storage keys: a proposal's key from its proposer and nonce, a vote
//! record's key from the proposal and the voter.

use crate::address::Address;
use anchor_lang::prelude::Pubkey;
use vstd::bytes::{spec_u64_to_le_bytes, u64_to_le_bytes};
use vstd::prelude::*;
use vstd::string::StringSliceAdditionalSpecFns;

verus! {

/// What `Pubkey::try_find_program_address` returns for a list of seeds and a program's
/// address: the derived address with its bump seed, or `None` where there is none.
pub uninterp spec fn program_address(seeds: Seq<Seq<u8>>, program: Seq<u8>) -> Option<
    (Seq<u8>, u8),
>;

/// A derived address and bump seed as plain values.
pub open spec fn derived_view(derived: Option<(Address, u8)>) -> Option<(Seq<u8>, u8)> {
    match derived {
        Some((address, bump)) => Some((address@, bump)),
        None => None,
    }
}

/// Calls `Pubkey::try_find_program_address` on three seeds. Believed, not proved: what
/// comes back is what the outside function returns for these seeds and this program,
/// which depends on them alone. The contract says nothing of which address that is, nor
/// that there is one.
#[verifier::external_body]
fn find_program_address(tag: &[u8], first: &[u8], second: &[u8], program: &Address) -> (found:
    Option<(Address, u8)>)
    ensures
        derived_view(found) == program_address(seq![tag@, first@, second@], program@),
{
    let id = Pubkey::new_from_array(program.bytes);
    Pubkey::try_find_program_address(&[tag, first, second], &id).map(
        |(key, bump)| (Address { bytes: key.to_bytes() }, bump),
    )
}

/// The bytes of the address under which all keys are derived.
pub open spec fn program_id_bytes() -> Seq<u8> {
    seq![
        215u8, 65, 220, 18, 40, 32, 117, 98, 18, 4, 216, 29, 22, 78, 192, 150,
        222, 105, 121, 98, 69, 4, 38, 66, 68, 137, 176, 232, 173, 156, 22, 40,
    ]
}

/// The address under which all keys are derived.
pub fn program_id() -> (id: Address)
    ensures
        id@ == program_id_bytes(),
{
    let id = Address {
        bytes: [
            215u8, 65, 220, 18, 40, 32, 117, 98, 18, 4, 216, 29, 22, 78, 192, 150,
            222, 105, 121, 98, 69, 4, 38, 66, 68, 137, 176, 232, 173, 156, 22, 40,
        ],
    };
    assert(id@ =~= program_id_bytes());
    id
}

/// The domain tag of proposal keys.
pub open spec fn proposal_tag() -> Seq<u8> {
    "proposal".spec_bytes()
}

/// The domain tag of vote record keys.
pub open spec fn voter_tag() -> Seq<u8> {
    "voter".spec_bytes()
}

/// The seeds of a proposal's key: the tag, the proposer, the nonce in little-endian bytes.
pub open spec fn proposal_seeds(proposer: Seq<u8>, nonce: u64) -> Seq<Seq<u8>> {
    seq![proposal_tag(), proposer, spec_u64_to_le_bytes(nonce)]
}

/// The seeds of a vote record's key: the tag, the proposal's key, the voter.
pub open spec fn vote_seeds(proposal: Seq<u8>, voter: Seq<u8>) -> Seq<Seq<u8>> {
    seq![voter_tag(), proposal, voter]
}

/// The key and bump seed of the proposal that `proposer` creates with `nonce`.
pub open spec fn proposal_address(proposer: Seq<u8>, nonce: u64) -> Option<(Seq<u8>, u8)> {
    program_address(proposal_seeds(proposer, nonce), program_id_bytes())
}

/// The key and bump seed of the record of `voter`'s vote on `proposal`.
pub open spec fn vote_address(proposal: Seq<u8>, voter: Seq<u8>) -> Option<(Seq<u8>, u8)> {
    program_address(vote_seeds(proposal, voter), program_id_bytes())
}

/// Derives the key of the proposal that `proposer` creates with `nonce`.
pub fn derive_proposal_id(proposer: &Address, nonce: u64) -> (derived: Option<(Address, u8)>)
    ensures
        derived_view(derived) == proposal_address(proposer@, nonce),
{
    let nonce_bytes = u64_to_le_bytes(nonce);
    let program = program_id();
    find_program_address(
        "proposal".as_bytes(),
        proposer.bytes.as_slice(),
        nonce_bytes.as_slice(),
        &program,
    )
}

/// Derives the key of the record of `voter`'s vote on the proposal stored at `proposal`.
pub fn derive_vote_id(proposal: &Address, voter: &Address) -> (derived: Option<(Address, u8)>)
    ensures
        derived_view(derived) == vote_address(proposal@, voter@),
{
    let program = program_id();
    find_program_address(
        "voter".as_bytes(),
        proposal.bytes.as_slice(),
        voter.bytes.as_slice(),
        &program,
    )
}

/// Different proposers or different nonces give different seeds.
pub proof fn law_proposal_seeds_injective(p1: Seq<u8>, n1: u64, p2: Seq<u8>, n2: u64)
    requires
        proposal_seeds(p1, n1) == proposal_seeds(p2, n2),
    ensures
        p1 == p2,
        n1 == n2,
{
    vstd::bytes::lemma_auto_spec_u64_to_from_le_bytes();
    assert(proposal_seeds(p1, n1)[1] == proposal_seeds(p2, n2)[1]);
    assert(proposal_seeds(p1, n1)[2] == proposal_seeds(p2, n2)[2]);
}

/// Different proposals or different voters give different seeds.
pub proof fn law_vote_seeds_injective(p1: Seq<u8>, v1: Seq<u8>, p2: Seq<u8>, v2: Seq<u8>)
    requires
        vote_seeds(p1, v1) == vote_seeds(p2, v2),
    ensures
        p1 == p2,
        v1 == v2,
{
    assert(vote_seeds(p1, v1)[1] == vote_seeds(p2, v2)[1]);
    assert(vote_seeds(p1, v1)[2] == vote_seeds(p2, v2)[2]);
}

/// The seeds of a proposal's key are never the seeds of a vote record's key.
pub proof fn law_seed_domains_disjoint(proposer: Seq<u8>, nonce: u64, proposal: Seq<u8>, voter: Seq<u8>)
    ensures
        proposal_seeds(proposer, nonce) != vote_seeds(proposal, voter),
{
    reveal_strlit("proposal");
    reveal_strlit("voter");
    vstd::string::is_ascii_spec_bytes("proposal");
    vstd::string::is_ascii_spec_bytes("voter");
    assert(proposal_tag().len() == 8);
    assert(voter_tag().len() == 5);
    assert(proposal_seeds(proposer, nonce)[0] == proposal_tag());
    assert(vote_seeds(proposal, voter)[0] == voter_tag());
}

/// Read one after another, the seeds of a proposal's key spell out its proposer and
/// nonce, and never what the seeds of a vote record's key spell.
pub proof fn law_seed_bytes_tell_records_apart(
    p1: Seq<u8>,
    n1: u64,
    p2: Seq<u8>,
    n2: u64,
    proposal: Seq<u8>,
    voter: Seq<u8>,
)
    requires
        p1.len() == 32,
        p2.len() == 32,
        proposal.len() == 32,
        voter.len() == 32,
    ensures
        proposal_tag() + p1 + spec_u64_to_le_bytes(n1) == proposal_tag() + p2
            + spec_u64_to_le_bytes(n2) ==> p1 == p2 && n1 == n2,
        proposal_tag() + p1 + spec_u64_to_le_bytes(n1) != voter_tag() + proposal + voter,
{
    reveal_strlit("proposal");
    reveal_strlit("voter");
    vstd::string::is_ascii_spec_bytes("proposal");
    vstd::string::is_ascii_spec_bytes("voter");
    vstd::bytes::lemma_auto_spec_u64_to_from_le_bytes();
    let left = proposal_tag() + p1 + spec_u64_to_le_bytes(n1);
    let right = proposal_tag() + p2 + spec_u64_to_le_bytes(n2);
    assert(proposal_tag().len() == 8);
    assert(left.len() == 48);
    assert((voter_tag() + proposal + voter).len() == 69);
    if left == right {
        assert(left.subrange(8, 40) =~= p1);
        assert(right.subrange(8, 40) =~= p2);
        assert(left.subrange(40, 48) =~= spec_u64_to_le_bytes(n1));
        assert(right.subrange(40, 48) =~= spec_u64_to_le_bytes(n2));
    }
}

} // verus!
