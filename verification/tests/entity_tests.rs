use peerme_dao::bignat::BigNat;
use peerme_dao::entity::{Entity, EntityAction, EntityError, EntityEsdt, EntityEsdtStorage, EntityStorage, EsdtLocalRole};
use peerme_dao::types::{Address, TokenPayment};
use peerme_dao::vote::{Proposal, ProposalStatus, VoteEvent, VoteModule, VoteNFTAttributes, VoteType};

fn addr(b: u8) -> Address {
    [b; 32]
}

fn n(v: u128) -> BigNat {
    BigNat::from_u128(v)
}

fn payment(token: &str, nonce: u64, amount: u128) -> TokenPayment {
    TokenPayment { token_id: token.as_bytes().to_vec(), nonce, amount: n(amount) }
}

fn proposal(id: u64, votes_for: u128, votes_against: u128) -> Proposal {
    Proposal { id, votes_for: BigNat::from_u128(votes_for), votes_against: BigNat::from_u128(votes_against) }
}

fn ready_entity() -> EntityStorage {
    let (mut e, _) = <EntityStorage as Entity>::init(addr(7), None, None, None);
    e.config.governance_token_id = b"GOV-123456".to_vec();
    e.config.vote_nft_token = b"VOTE-123456".to_vec();
    e
}

#[test]
fn entity_init_plans_modules() {
    let (e, plan) = <EntityStorage as Entity>::init(addr(7), Some(b"GOV-1".to_vec()), Some(n(100)), Some(addr(1)));
    assert_eq!(e.config.trusted_host_address, addr(7));
    assert!(!e.config.sealed);
    assert_eq!(plan.permission_leader, Some(addr(1)));
    assert_eq!(plan.governance, Some((b"GOV-1".to_vec(), n(100))));

    let (_, plan) = <EntityStorage as Entity>::init(addr(7), Some(b"GOV-1".to_vec()), None, None);
    assert_eq!(plan.permission_leader, None);
    assert_eq!(plan.governance, None);
}

#[test]
fn entity_esdt_init_sets_token() {
    let (e, plan) = <EntityEsdtStorage as EntityEsdt>::init(addr(7), Some(b"GOV-1".to_vec()), Some(n(100)), None);
    assert_eq!(e.token, b"GOV-1".to_vec());
    assert_eq!(plan.governance, Some((b"GOV-1".to_vec(), n(100))));
    let (e, plan) = <EntityEsdtStorage as EntityEsdt>::init(addr(7), None, Some(n(100)), Some(addr(2)));
    assert!(e.token.is_empty());
    assert_eq!(plan.permission_module_leader, Some(addr(2)));
    assert_eq!(plan.governance, None);
}

#[test]
fn seal_checks_and_seals() {
    let (mut e, _) = <EntityStorage as Entity>::init(addr(7), None, None, None);
    e.config.governance_token_id = b"GOV-123456".to_vec();
    assert_eq!(e.seal_endpoint(addr(1), b"GOV-123456".to_vec(), n(1)), Err(EntityError::VoteNftTokenNotSet));
    assert_eq!(EntityError::VoteNftTokenNotSet.message(), "vote nft token must be set");

    let mut e = ready_entity();
    let r = e.seal_endpoint(addr(1), b"FAKE-1".to_vec(), n(1));
    assert_eq!(r, Err(EntityError::InvalidTokenProof));
    assert_eq!(EntityError::InvalidTokenProof.message(), "invalid token proof");
    assert!(!e.config.sealed);

    let r = e.seal_endpoint(addr(1), b"GOV-123456".to_vec(), n(4));
    assert_eq!(
        r,
        Ok(vec![
            EntityAction::SendEsdt { to: addr(1), payment: payment("GOV-123456", 0, 4) },
            EntityAction::SetLocalRoles {
                token_id: b"VOTE-123456".to_vec(),
                roles: vec![EsdtLocalRole::NftCreate, EsdtLocalRole::NftBurn],
            },
        ])
    );
    assert!(e.config.sealed);
    assert_eq!(e.seal_endpoint(addr(1), b"GOV-123456".to_vec(), n(4)), Err(EntityError::AlreadySealed));
}

#[test]
fn esdt_finalize_needs_vote_nft_token() {
    let (mut e, _) = <EntityEsdtStorage as EntityEsdt>::init(addr(7), None, None, None);
    assert_eq!(e.finalize_endpoint(), Err(EntityError::VoteNftTokenNotSet));
    e.config.vote_nft_token = b"VOTE-1".to_vec();
    assert_eq!(
        e.finalize_endpoint(),
        Ok(EntityAction::SetLocalRoles { token_id: b"VOTE-1".to_vec(), roles: vec![EsdtLocalRole::NftCreate, EsdtLocalRole::NftBurn] })
    );
}

#[test]
fn vote_for_counts_weight_and_mints_nft() {
    let mut e = ready_entity();
    e.config.sealed = true;
    let mut p = proposal(3, 10, 5);
    let r = e.config.vote(3, &mut p, ProposalStatus::Active, VoteType::For, addr(2), payment("GOV-123456", 0, 20));
    assert_eq!(p, proposal(3, 30, 5));
    assert_eq!(
        r,
        Ok(vec![
            EntityAction::CreateAndSendVoteNft {
                to: addr(2),
                amount: n(1),
                attributes: VoteNFTAttributes {
                    proposal_id: 3,
                    vote_type: VoteType::For,
                    vote_weight: n(20),
                    voter: addr(2),
                    payment: payment("GOV-123456", 0, 20),
                },
            },
            EntityAction::EmitVote(VoteEvent {
                proposal: proposal(3, 30, 5),
                vote_type: VoteType::For,
                payment: payment("GOV-123456", 0, 20),
                vote_weight: n(20),
            }),
        ])
    );
}

#[test]
fn vote_against_counts_weight() {
    let mut e = ready_entity();
    e.config.sealed = true;
    let mut p = proposal(1, 10, 5);
    e.config.vote(1, &mut p, ProposalStatus::Active, VoteType::Against, addr(2), payment("GOV-123456", 0, 7)).unwrap();
    assert_eq!(p, proposal(1, 10, 12));
}

#[test]
fn vote_refusals_leave_proposal_unchanged() {
    let mut e = ready_entity();
    let start = proposal(1, 10, 5);
    let mut p = start.clone();
    let r = e.config.vote(1, &mut p, ProposalStatus::Active, VoteType::For, addr(2), payment("GOV-123456", 0, 7));
    assert_eq!(r, Err(EntityError::NotSealed));
    e.config.sealed = true;
    let r = e.config.vote(1, &mut p, ProposalStatus::Active, VoteType::For, addr(2), payment("FAKE-1", 0, 7));
    assert_eq!(r, Err(EntityError::InvalidPaymentToken));
    assert_eq!(EntityError::InvalidPaymentToken.message(), "invalid payment token");
    let r = e.config.vote(1, &mut p, ProposalStatus::Succeeded, VoteType::For, addr(2), payment("GOV-123456", 0, 7));
    assert_eq!(r, Err(EntityError::ProposalNotActive));
    assert_eq!(EntityError::ProposalNotActive.message(), "proposal is not active");
    let r = e.config.vote(1, &mut p, ProposalStatus::Active, VoteType::For, addr(2), payment("GOV-123456", 0, 0));
    assert_eq!(r, Err(EntityError::ZeroVoteWeight));
    assert_eq!(EntityError::ZeroVoteWeight.message(), "can not vote with zero");
    assert_eq!(p, start);
}

#[test]
fn vote_nft_attributes() {
    let a = ready_entity().config.create_vote_nft_and_send(addr(4), 9, VoteType::Against, n(12), payment("GOV-1", 0, 12));
    assert_eq!(
        a,
        EntityAction::CreateAndSendVoteNft {
            to: addr(4),
            amount: n(1),
            attributes: VoteNFTAttributes { proposal_id: 9, vote_type: VoteType::Against, vote_weight: n(12), voter: addr(4), payment: payment("GOV-1", 0, 12) },
        }
    );
}

#[test]
fn tallies_grow_past_128_bits() {
    let mut e = ready_entity();
    e.config.sealed = true;
    let mut p = proposal(1, u128::MAX, 0);
    let r = e.config.vote(1, &mut p, ProposalStatus::Active, VoteType::For, addr(2), payment("GOV-123456", 0, 1));
    assert!(r.is_ok());
    assert_eq!(p.votes_for.limbs(), &vec![0u32, 0, 0, 0, 1]);
    assert_eq!(p.votes_against, BigNat::zero());
    e.config.vote(1, &mut p, ProposalStatus::Active, VoteType::For, addr(2), payment("GOV-123456", 0, u128::MAX)).unwrap();
    assert_eq!(p.votes_for.limbs(), &vec![0xffff_ffffu32, 0xffff_ffff, 0xffff_ffff, 0xffff_ffff, 1]);
}

#[test]
fn big_numbers_add() {
    let a = BigNat::from_u128(0xffff_ffff);
    assert_eq!(a.add(&BigNat::from_u128(1)), BigNat::from_u128(0x1_0000_0000));
    assert_eq!(BigNat::zero().add(&BigNat::zero()), BigNat::zero());
    assert_eq!(BigNat::from_u128(7).add(&n(35)), BigNat::from_u128(42));
    assert!(n(5).ge(&n(5)) && n(6).ge(&n(5)) && !n(4).ge(&n(5)));
    assert!(n(0).is_zero() && !n(1).is_zero());
    assert!(n(u128::MAX).add(&n(1)).ge(&n(u128::MAX)));
    assert_eq!(BigNat::from_u128(123456789).copy(), BigNat::from_u128(123456789));
    assert_eq!(BigNat::from_limbs(vec![5, 1]), BigNat::from_u128(0x1_0000_0005));
    assert_eq!(BigNat::from_u128(u128::MAX).add(&n(u128::MAX)).limbs(), &vec![0xffff_fffeu32, 0xffff_ffff, 0xffff_ffff, 0xffff_ffff, 1]);
}
