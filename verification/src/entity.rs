use vstd::prelude::*;

use crate::bignat::BigNat;
use crate::types::{bytes_eq, copy_bytes, Address, TokenId, TokenPayment};
use crate::vote::{VoteEvent, VoteNFTAttributes};

verus! {

/// Why an entity refuses a call. Each refusal reverts the transaction.
#[derive(Clone, Copy, Debug, PartialEq, Eq)]
pub enum EntityError {
    NotSealed,
    AlreadySealed,
    VoteNftTokenNotSet,
    InvalidTokenProof,
    InvalidPaymentToken,
    ProposalNotActive,
    ZeroVoteWeight,
}

impl EntityError {
    /// The message with which the contract reverts.
    pub open spec fn message_view(self) -> Seq<char> {
        match self {
            EntityError::NotSealed => "entity is not sealed"@,
            EntityError::AlreadySealed => "entity is already sealed"@,
            EntityError::VoteNftTokenNotSet => "vote nft token must be set"@,
            EntityError::InvalidTokenProof => "invalid token proof"@,
            EntityError::InvalidPaymentToken => "invalid payment token"@,
            EntityError::ProposalNotActive => "proposal is not active"@,
            EntityError::ZeroVoteWeight => "can not vote with zero"@,
        }
    }

    /// The message with which the contract reverts.
    pub fn message(&self) -> (r: &'static str)
        ensures
            r@ == self.message_view(),
    {
        match self {
            EntityError::NotSealed => "entity is not sealed",
            EntityError::AlreadySealed => "entity is already sealed",
            EntityError::VoteNftTokenNotSet => "vote nft token must be set",
            EntityError::InvalidTokenProof => "invalid token proof",
            EntityError::InvalidPaymentToken => "invalid payment token",
            EntityError::ProposalNotActive => "proposal is not active",
            EntityError::ZeroVoteWeight => "can not vote with zero",
        }
    }
}

/// A local role of a token that an entity holds.
#[derive(Clone, Copy, Debug, PartialEq, Eq)]
pub enum EsdtLocalRole {
    NftCreate,
    NftBurn,
}

/// What an entity asks the chain to do once a call is accepted.
#[derive(Clone, Debug, PartialEq, Eq)]
pub enum EntityAction {
    /// Send an ESDT payment.
    SendEsdt { to: Address, payment: TokenPayment },
    /// Give the entity local roles of a token.
    SetLocalRoles { token_id: TokenId, roles: Vec<EsdtLocalRole> },
    /// Create `amount` vote NFTs with `attributes` and send them to `to`.
    CreateAndSendVoteNft { to: Address, amount: BigNat, attributes: VoteNFTAttributes },
    /// Emit the vote event.
    EmitVote(VoteEvent),
}

/// What the permission and governance modules of an [`Entity`] are asked
/// to set up when it is created.
#[derive(Clone, Debug, PartialEq, Eq)]
pub struct EntityInit {
    /// The leader to initialise the permission module with; the permission
    /// module is initialised only when a leader is given.
    pub permission_leader: Option<Address>,
    /// The governance token and the initial token amount, when both are given.
    pub governance: Option<(TokenId, BigNat)>,
}

/// What the permission and governance modules of an [`EntityEsdt`] are
/// asked to set up when it is created.
#[derive(Clone, Debug, PartialEq, Eq)]
pub struct EntityEsdtInit {
    /// The optional leader that the permission module is always initialised with.
    pub permission_module_leader: Option<Address>,
    /// The governance token and the initial token amount, when both are given.
    pub governance: Option<(TokenId, BigNat)>,
}

/// The settings of an entity that its endpoints read.
#[derive(Clone, Debug, PartialEq, Eq)]
pub struct EntityConfig {
    pub trusted_host_address: Address,
    pub sealed: bool,
    pub governance_token_id: TokenId,
    pub vote_nft_token: TokenId,
}

impl EntityConfig {
    /// Settings of a fresh entity: not sealed, no tokens.
    pub fn new(trusted_host_address: Address) -> (r: EntityConfig)
        ensures
            r.trusted_host_address == trusted_host_address,
            !r.sealed,
            r.governance_token_id@.len() == 0,
            r.vote_nft_token@.len() == 0,
    {
        EntityConfig {
            trusted_host_address,
            sealed: false,
            governance_token_id: Vec::new(),
            vote_nft_token: Vec::new(),
        }
    }

    /// Refuses unless the entity is sealed.
    pub fn require_sealed(&self) -> (r: Result<(), EntityError>)
        ensures
            self.sealed ==> r == Ok::<(), EntityError>(()),
            !self.sealed ==> r == Err::<(), EntityError>(EntityError::NotSealed),
    {
        if self.sealed {
            Ok(())
        } else {
            Err(EntityError::NotSealed)
        }
    }

    /// Refuses when the entity is sealed.
    pub fn require_not_sealed(&self) -> (r: Result<(), EntityError>)
        ensures
            !self.sealed ==> r == Ok::<(), EntityError>(()),
            self.sealed ==> r == Err::<(), EntityError>(EntityError::AlreadySealed),
    {
        if self.sealed {
            Err(EntityError::AlreadySealed)
        } else {
            Ok(())
        }
    }

    /// Refuses unless `payment_token` is the governance token.
    pub fn require_payment_token_governance_token(&self, payment_token: &[u8]) -> (r: Result<(), EntityError>)
        ensures
            payment_token@ == self.governance_token_id@ ==> r == Ok::<(), EntityError>(()),
            payment_token@ != self.governance_token_id@ ==> r == Err::<(), EntityError>(
                EntityError::InvalidPaymentToken),
    {
        if bytes_eq(payment_token, self.governance_token_id.as_slice()) {
            Ok(())
        } else {
            Err(EntityError::InvalidPaymentToken)
        }
    }

    /// The action that lets the entity create and burn vote NFTs.
    fn vote_nft_roles_action(&self) -> (r: EntityAction)
        ensures
            r matches EntityAction::SetLocalRoles { token_id, roles } && token_id@ == self.vote_nft_token@
                && roles@ == seq![EsdtLocalRole::NftCreate, EsdtLocalRole::NftBurn],
    {
        EntityAction::SetLocalRoles {
            token_id: copy_bytes(self.vote_nft_token.as_slice()),
            roles: vec![EsdtLocalRole::NftCreate, EsdtLocalRole::NftBurn],
        }
    }
}

/// `r` gives the vote NFT token the create and burn roles.
pub open spec fn is_vote_nft_roles(r: EntityAction, vote_nft_token: Seq<u8>) -> bool {
    r matches EntityAction::SetLocalRoles { token_id, roles } && token_id@ == vote_nft_token && roles@
        == seq![EsdtLocalRole::NftCreate, EsdtLocalRole::NftBurn]
}

/// The storage of a DAO entity.
#[derive(Clone, Debug, PartialEq, Eq)]
pub struct EntityStorage {
    pub config: EntityConfig,
}

/// The storage of a DAO entity whose governance token is an ESDT token it holds.
#[derive(Clone, Debug, PartialEq, Eq)]
pub struct EntityEsdtStorage {
    pub config: EntityConfig,
    /// The entity's token.
    pub token: TokenId,
}

/// The DAO entity contract. Each refused call leaves the storage as it was.
pub trait Entity: Sized {
    /// The contract's storage.
    spec fn storage(&self) -> EntityStorage;

    /// Creates an entity trusting `trusted_host_address`; a given leader
    /// initialises the permission module, and a given token with a given
    /// initial amount initialises the governance module.
    fn init(
        trusted_host_address: Address,
        opt_token: Option<TokenId>,
        opt_initial_tokens: Option<BigNat>,
        opt_leader: Option<Address>,
    ) -> (r: (Self, EntityInit))
        ensures
            r.0.storage().config.trusted_host_address == trusted_host_address,
            !r.0.storage().config.sealed,
            r.0.storage().config.governance_token_id@.len() == 0,
            r.0.storage().config.vote_nft_token@.len() == 0,
            r.1.permission_leader == opt_leader,
            (opt_token is Some && opt_initial_tokens is Some) ==> r.1.governance == Some(
                (opt_token.unwrap(), opt_initial_tokens.unwrap()),
            ),
            !(opt_token is Some && opt_initial_tokens is Some) ==> r.1.governance is None,
    ;

    /// Seals the entity: it must not be sealed yet, its vote NFT token must
    /// be set, and the caller must send the governance token as proof. The
    /// proof goes back to the caller and the entity takes the create and
    /// burn roles of the vote NFT token.
    fn seal_endpoint(&mut self, caller: Address, proof_token_id: TokenId, proof_amount: BigNat) -> (r: Result<
        Vec<EntityAction>,
        EntityError,
    >)
        ensures
            old(self).storage().config.sealed ==> r == Err::<Vec<EntityAction>, EntityError>(
                EntityError::AlreadySealed) && final(self).storage() == old(self).storage(),
            !old(self).storage().config.sealed && old(self).storage().config.vote_nft_token@.len() == 0 ==> r
                == Err::<Vec<EntityAction>, EntityError>(EntityError::VoteNftTokenNotSet) && final(self).storage()
                == old(self).storage(),
            !old(self).storage().config.sealed && old(self).storage().config.vote_nft_token@.len() != 0
                && proof_token_id@ != old(self).storage().config.governance_token_id@ ==> r == Err::<
                Vec<EntityAction>,
                EntityError,
            >(EntityError::InvalidTokenProof) && final(self).storage() == old(self).storage(),
            !old(self).storage().config.sealed && old(self).storage().config.vote_nft_token@.len() != 0
                && proof_token_id@ == old(self).storage().config.governance_token_id@ ==> {
                &&& final(self).storage().config == (EntityConfig { sealed: true, ..old(self).storage().config })
                &&& r matches Ok(actions)
                &&& actions@.len() == 2
                &&& actions@[0] == (EntityAction::SendEsdt {
                    to: caller,
                    payment: TokenPayment { token_id: proof_token_id, nonce: 0, amount: proof_amount },
                })
                &&& is_vote_nft_roles(actions@[1], old(self).storage().config.vote_nft_token@)
            },
    ;
}

impl Entity for EntityStorage {
    open spec fn storage(&self) -> EntityStorage {
        *self
    }

    fn init(
        trusted_host_address: Address,
        opt_token: Option<TokenId>,
        opt_initial_tokens: Option<BigNat>,
        opt_leader: Option<Address>,
    ) -> (r: (EntityStorage, EntityInit)) {
        let governance = match (opt_token, opt_initial_tokens) {
            (Some(token_id), Some(initial_tokens)) => Some((token_id, initial_tokens)),
            _ => None,
        };
        (
            EntityStorage { config: EntityConfig::new(trusted_host_address) },
            EntityInit { permission_leader: opt_leader, governance },
        )
    }

    fn seal_endpoint(&mut self, caller: Address, proof_token_id: TokenId, proof_amount: BigNat) -> (r: Result<
        Vec<EntityAction>,
        EntityError,
    >) {
        self.config.require_not_sealed()?;
        if self.config.vote_nft_token.len() == 0 {
            return Err(EntityError::VoteNftTokenNotSet);
        }
        if !bytes_eq(proof_token_id.as_slice(), self.config.governance_token_id.as_slice()) {
            return Err(EntityError::InvalidTokenProof);
        }
        self.config.sealed = true;
        let roles = self.config.vote_nft_roles_action();
        Ok(
            vec![
                EntityAction::SendEsdt {
                    to: caller,
                    payment: TokenPayment { token_id: proof_token_id, nonce: 0, amount: proof_amount },
                },
                roles,
            ],
        )
    }
}

/// The DAO entity contract whose governance token is an ESDT token it holds.
pub trait EntityEsdt: Sized {
    /// The contract's storage.
    spec fn storage(&self) -> EntityEsdtStorage;

    /// Creates an entity trusting `trusted_host_address`; the permission
    /// module is initialised with the optional leader, and a given token
    /// with a given initial amount becomes the entity's token and
    /// initialises the governance module.
    fn init(
        trusted_host_address: Address,
        opt_token: Option<TokenId>,
        opt_initial_tokens: Option<BigNat>,
        opt_leader: Option<Address>,
    ) -> (r: (Self, EntityEsdtInit))
        ensures
            r.0.storage().config.trusted_host_address == trusted_host_address,
            !r.0.storage().config.sealed,
            r.0.storage().config.governance_token_id@.len() == 0,
            r.0.storage().config.vote_nft_token@.len() == 0,
            r.1.permission_module_leader == opt_leader,
            (opt_token is Some && opt_initial_tokens is Some) ==> {
                &&& r.0.storage().token@ == opt_token.unwrap()@
                &&& r.1.governance == Some((opt_token.unwrap(), opt_initial_tokens.unwrap()))
            },
            !(opt_token is Some && opt_initial_tokens is Some) ==> r.0.storage().token@.len() == 0
                && r.1.governance is None,
    ;

    /// Gives the entity the create and burn roles of its vote NFT token,
    /// which must be set.
    fn finalize_endpoint(&self) -> (r: Result<EntityAction, EntityError>)
        ensures
            self.storage().config.vote_nft_token@.len() == 0 ==> r == Err::<EntityAction, EntityError>(
                EntityError::VoteNftTokenNotSet),
            self.storage().config.vote_nft_token@.len() != 0 ==> {
                &&& r matches Ok(a)
                &&& is_vote_nft_roles(a, self.storage().config.vote_nft_token@)
            },
    ;
}

impl EntityEsdt for EntityEsdtStorage {
    open spec fn storage(&self) -> EntityEsdtStorage {
        *self
    }

    fn init(
        trusted_host_address: Address,
        opt_token: Option<TokenId>,
        opt_initial_tokens: Option<BigNat>,
        opt_leader: Option<Address>,
    ) -> (r: (EntityEsdtStorage, EntityEsdtInit)) {
        let (token, governance) = match (opt_token, opt_initial_tokens) {
            (Some(token_id), Some(initial_tokens)) => {
                let token = copy_bytes(token_id.as_slice());
                (token, Some((token_id, initial_tokens)))
            },
            _ => (Vec::new(), None),
        };
        (
            EntityEsdtStorage { config: EntityConfig::new(trusted_host_address), token },
            EntityEsdtInit { permission_module_leader: opt_leader, governance },
        )
    }

    fn finalize_endpoint(&self) -> (r: Result<EntityAction, EntityError>) {
        if self.config.vote_nft_token.len() == 0 {
            return Err(EntityError::VoteNftTokenNotSet);
        }
        Ok(self.config.vote_nft_roles_action())
    }
}

} // verus!
