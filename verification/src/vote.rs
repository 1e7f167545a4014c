use vstd::prelude::*;

use crate::bignat::BigNat;
use crate::entity::{EntityAction, EntityConfig, EntityError};
use crate::types::{copy_bytes, Address, TokenPayment};

verus! {

/// On which side a vote counts.
#[derive(Clone, Copy, Debug, PartialEq, Eq)]
pub enum VoteType {
    For,
    Against,
}

/// Where a proposal stands, as the proposal module reports it.
#[derive(Clone, Copy, Debug, PartialEq, Eq)]
pub enum ProposalStatus {
    Pending,
    Active,
    Defeated,
    Succeeded,
    Executed,
}

/// The vote tallies of a proposal.
#[derive(Clone, Debug, PartialEq, Eq)]
pub struct Proposal {
    pub id: u64,
    pub votes_for: BigNat,
    pub votes_against: BigNat,
}

/// `a` and `b` are the same proposal with the same tallies.
pub open spec fn same_tallies(a: Proposal, b: Proposal) -> bool {
    a.id == b.id && a.votes_for@ == b.votes_for@ && a.votes_against@ == b.votes_against@
}

/// The attributes of the NFT that a voter receives for a vote.
#[derive(Clone, Debug, PartialEq, Eq)]
pub struct VoteNFTAttributes {
    pub proposal_id: u64,
    pub vote_type: VoteType,
    pub vote_weight: BigNat,
    pub voter: Address,
    pub payment: TokenPayment,
}

/// The vote event: the proposal after the vote, the vote and its payment.
#[derive(Clone, Debug, PartialEq, Eq)]
pub struct VoteEvent {
    pub proposal: Proposal,
    pub vote_type: VoteType,
    pub payment: TokenPayment,
    pub vote_weight: BigNat,
}

/// `p` is `before` with `weight` counted on the `vote_type` side.
pub open spec fn tallied(before: Proposal, p: Proposal, vote_type: VoteType, weight: nat) -> bool {
    &&& p.id == before.id
    &&& vote_type == VoteType::For ==> p.votes_for@ == before.votes_for@ + weight && p.votes_against
        == before.votes_against
    &&& vote_type == VoteType::Against ==> p.votes_against@ == before.votes_against@ + weight
        && p.votes_for == before.votes_for
}

/// One vote call took the proposal from `before` to `after` and counted
/// `counted` (0 when the vote was refused): no tally decreased and their
/// total grew by exactly `counted`.
pub open spec fn tally_step(before: Proposal, after: Proposal, counted: nat) -> bool {
    &&& after.id == before.id
    &&& after.votes_for@ >= before.votes_for@
    &&& after.votes_against@ >= before.votes_against@
    &&& after.votes_for@ + after.votes_against@ == before.votes_for@ + before.votes_against@ + counted
}

/// Voting on proposals with the governance token.
pub trait VoteModule {
    /// The entity settings that voting reads.
    spec fn vote_config(&self) -> EntityConfig;

    /// Casts the vote of `voter`, who paid `payment`, on proposal
    /// `proposal_id`, whose status is `status`. The entity must be sealed,
    /// the payment must be in the governance token, the proposal must be
    /// active and the weight (the amount paid) must not be zero. The weight
    /// is counted on the chosen side, and the voter receives a vote NFT.
    fn vote(
        &self,
        proposal_id: u64,
        proposal: &mut Proposal,
        status: ProposalStatus,
        vote_type: VoteType,
        voter: Address,
        payment: TokenPayment,
    ) -> (r: Result<Vec<EntityAction>, EntityError>)
        requires
            old(proposal).id == proposal_id,
        ensures
            !self.vote_config().sealed ==> r == Err::<Vec<EntityAction>, EntityError>(EntityError::NotSealed)
                && *final(proposal) == *old(proposal),
            self.vote_config().sealed && payment.token_id@ != self.vote_config().governance_token_id@ ==> r == Err::<
                Vec<EntityAction>,
                EntityError,
            >(EntityError::InvalidPaymentToken) && *final(proposal) == *old(proposal),
            self.vote_config().sealed && payment.token_id@ == self.vote_config().governance_token_id@ && status
                != ProposalStatus::Active ==> r == Err::<Vec<EntityAction>, EntityError>(
                EntityError::ProposalNotActive) && *final(proposal) == *old(proposal),
            self.vote_config().sealed && payment.token_id@ == self.vote_config().governance_token_id@ && status
                == ProposalStatus::Active && payment.amount@ == 0 ==> r == Err::<
                Vec<EntityAction>,
                EntityError,
            >(EntityError::ZeroVoteWeight) && *final(proposal) == *old(proposal),
            tally_step(*old(proposal), *final(proposal), if r is Ok { payment.amount@ } else { 0 }),
            self.vote_config().sealed && payment.token_id@ == self.vote_config().governance_token_id@ && status
                == ProposalStatus::Active && payment.amount@ != 0 ==> {
                &&& tallied(*old(proposal), *final(proposal), vote_type, payment.amount@)
                &&& r matches Ok(actions)
                &&& actions@.len() == 2
                &&& actions@[0] matches EntityAction::CreateAndSendVoteNft { to, amount, attributes }
                &&& to == voter
                &&& amount@ == 1
                &&& attributes.proposal_id == proposal_id
                &&& attributes.vote_type == vote_type
                &&& attributes.vote_weight@ == payment.amount@
                &&& attributes.voter == voter
                &&& attributes.payment.token_id@ == payment.token_id@
                &&& attributes.payment.nonce == payment.nonce
                &&& attributes.payment.amount@ == payment.amount@
                &&& actions@[1] matches EntityAction::EmitVote(event)
                &&& same_tallies(event.proposal, *final(proposal))
                &&& event.vote_type == vote_type
                &&& event.payment == payment
                &&& event.vote_weight@ == payment.amount@
            },
    ;

    /// Creates one vote NFT recording the vote and sends it to the voter.
    fn create_vote_nft_and_send(
        &self,
        voter: Address,
        proposal_id: u64,
        vote_type: VoteType,
        vote_weight: BigNat,
        payment: TokenPayment,
    ) -> (r: EntityAction)
        ensures
            r matches EntityAction::CreateAndSendVoteNft { to, amount, attributes } && to == voter && amount@ == 1
                && attributes == (VoteNFTAttributes { proposal_id, vote_type, vote_weight, voter, payment }),
    ;
}

impl VoteModule for EntityConfig {
    open spec fn vote_config(&self) -> EntityConfig {
        *self
    }

    fn vote(
        &self,
        proposal_id: u64,
        proposal: &mut Proposal,
        status: ProposalStatus,
        vote_type: VoteType,
        voter: Address,
        payment: TokenPayment,
    ) -> (r: Result<Vec<EntityAction>, EntityError>)
    {
        self.require_sealed()?;
        self.require_payment_token_governance_token(payment.token_id.as_slice())?;
        match status {
            ProposalStatus::Active => {},
            _ => return Err(EntityError::ProposalNotActive),
        }
        if payment.amount.is_zero() {
            return Err(EntityError::ZeroVoteWeight);
        }
        match vote_type {
            VoteType::For => {
                proposal.votes_for = proposal.votes_for.add(&payment.amount);
            },
            VoteType::Against => {
                proposal.votes_against = proposal.votes_against.add(&payment.amount);
            },
        }
        let payment_copy = TokenPayment {
            token_id: copy_bytes(payment.token_id.as_slice()),
            nonce: payment.nonce,
            amount: payment.amount.copy(),
        };
        let nft = self.create_vote_nft_and_send(voter, proposal_id, vote_type, payment.amount.copy(), payment_copy);
        let vote_weight = payment.amount.copy();
        let event = VoteEvent {
            proposal: Proposal {
                id: proposal.id,
                votes_for: proposal.votes_for.copy(),
                votes_against: proposal.votes_against.copy(),
            },
            vote_type,
            payment,
            vote_weight,
        };
        Ok(vec![nft, EntityAction::EmitVote(event)])
    }

    fn create_vote_nft_and_send(
        &self,
        voter: Address,
        proposal_id: u64,
        vote_type: VoteType,
        vote_weight: BigNat,
        payment: TokenPayment,
    ) -> (r: EntityAction)
    {
        let attr = VoteNFTAttributes { proposal_id, vote_type, vote_weight, voter, payment };
        EntityAction::CreateAndSendVoteNft { to: voter, amount: BigNat::from_u128(1), attributes: attr }
    }
}

} // verus!
