use vstd::prelude::*;

use crate::bignat::BigNat;
use crate::dex::DexSettings;
use crate::events::{EventsModule, ManagerEvent};
use crate::factory::{create_entity_outcome, upgrade_entity_outcome, DeployRequest, FactoryModule};
use crate::store::KeyedStore;
use crate::types::{
    address_key, bytes_eq, copy_bytes, zero_address_view, Address, TokenId, TokenPayment,
};

verus! {

/// Why the Manager refuses a call. Each refusal reverts the transaction.
#[derive(Clone, Copy, Debug, PartialEq, Eq)]
pub enum ManagerError {
    AmountMustBePositive,
    TokenNotInSetup,
    InvalidCostToken,
    InvalidCostAmount,
    SetupTokenNotAvailable,
    EntityDoesNotExist,
    TrustedHostNotConfigured,
    AddressIsZero,
    StorageDecode,
    OnlyOwner,
    SwappedInvalidCostToken,
}

impl ManagerError {
    /// The message with which the contract reverts.
    pub open spec fn message_view(self) -> Seq<char> {
        match self {
            ManagerError::AmountMustBePositive => "amount must be greater than zero"@,
            ManagerError::TokenNotInSetup => "token not in setup"@,
            ManagerError::InvalidCostToken => "invalid cost token"@,
            ManagerError::InvalidCostAmount => "invalid cost amount"@,
            ManagerError::SetupTokenNotAvailable => "setup token is not available"@,
            ManagerError::EntityDoesNotExist => "entity does not exist"@,
            ManagerError::TrustedHostNotConfigured => "trusted host address needs to be configured"@,
            ManagerError::AddressIsZero => "address is zero"@,
            ManagerError::StorageDecode => "storage decode error: bad array length"@,
            ManagerError::OnlyOwner => "Endpoint can only be called by owner"@,
            ManagerError::SwappedInvalidCostToken => "swapped invalid cost token"@,
        }
    }

    /// The message with which the contract reverts.
    pub fn message(&self) -> (r: &'static str)
        ensures
            r@ == self.message_view(),
    {
        match self {
            ManagerError::AmountMustBePositive => "amount must be greater than zero",
            ManagerError::TokenNotInSetup => "token not in setup",
            ManagerError::InvalidCostToken => "invalid cost token",
            ManagerError::InvalidCostAmount => "invalid cost amount",
            ManagerError::SetupTokenNotAvailable => "setup token is not available",
            ManagerError::EntityDoesNotExist => "entity does not exist",
            ManagerError::TrustedHostNotConfigured => "trusted host address needs to be configured",
            ManagerError::AddressIsZero => "address is zero",
            ManagerError::StorageDecode => "storage decode error: bad array length",
            ManagerError::OnlyOwner => "Endpoint can only be called by owner",
            ManagerError::SwappedInvalidCostToken => "swapped invalid cost token",
        }
    }
}

/// A feature name and value handed to a new entity.
#[derive(Clone, Debug, PartialEq, Eq)]
pub struct Feature {
    pub name: Vec<u8>,
    pub value: Vec<u8>,
}

/// What the Manager asks the chain to do once a call is accepted.
#[derive(Clone, Debug, PartialEq, Eq)]
pub enum ManagerAction {
    /// Issue a fungible token and call back `token_issue_callback` for `initial_caller`.
    IssueToken {
        token_name: Vec<u8>,
        token_ticker: Vec<u8>,
        amount: BigNat,
        issue_cost: BigNat,
        initial_caller: Address,
    },
    /// Send an ESDT payment.
    SendEsdt { to: Address, payment: TokenPayment },
    /// Send EGLD.
    SendEgld { to: Address, amount: BigNat },
    /// Upgrade an entity to the template's code.
    UpgradeEntity { address: Address, gas: u64, template: Address, code_metadata: u16, trusted_host: Address },
    /// Burn an ESDT amount held by the Manager.
    BurnEsdt { token_id: TokenId, nonce: u64, amount: BigNat },
    /// Enable features on a new entity.
    EnableEntityFeatures { entity: Address, features: Vec<Feature> },
    /// Give a new entity the ESDT roles of its token.
    SetEntityEsdtRoles { token_id: TokenId, entity: Address },
    /// Hand the ownership of a token to its entity.
    TransferEntityEsdtOwnership { token_id: TokenId, entity: Address },
    /// Emit an event.
    Emit(ManagerEvent),
}

/// The outcome of a token issue, as the issue callback receives it.
#[derive(Clone, Debug, PartialEq, Eq)]
pub enum IssueResult {
    /// The token was issued and its supply came with the callback.
    Issued { payment: TokenPayment },
    /// The issue failed and `egld_returned` came back.
    Failed { egld_returned: BigNat },
}

/// The token that an owner is setting up an entity with, and its supply.
#[derive(Clone, Debug, PartialEq, Eq)]
pub struct SetupInfo {
    pub token_id: TokenId,
    pub amount: BigNat,
}

/// The Manager contract's storage: its settings, which entity each token
/// belongs to, and the token each owner is setting up an entity with.
pub struct ManagerStorage {
    pub entity_templ_address: Option<Address>,
    pub trusted_host_address: Option<Address>,
    pub cost_token_id: TokenId,
    pub cost_creation_amount: BigNat,
    pub native_token: TokenId,
    pub dex: DexSettings,
    pub entities: KeyedStore<Address>,
    pub setup: KeyedStore<SetupInfo>,
}

/// `action` sends `amount` of `token` with `nonce` to `to`.
pub open spec fn is_send_esdt(action: ManagerAction, to: Address, token: Seq<u8>, nonce: u64, amount: nat) -> bool {
    &&& action matches ManagerAction::SendEsdt { to: t, payment }
    &&& t == to
    &&& payment.token_id@ == token
    &&& payment.nonce == nonce
    &&& payment.amount@ == amount
}

impl ManagerStorage {
    /// The stores are well formed.
    pub open spec fn wf(&self) -> bool {
        self.entities.wf() && self.setup.wf()
    }

    /// The entity address registered for each token id.
    pub open spec fn entities_view(&self) -> Map<Seq<u8>, Address> {
        self.entities.view()
    }

    /// The setup record of each owner address.
    pub open spec fn setup_view(&self) -> Map<Seq<u8>, SetupInfo> {
        self.setup.view()
    }

    /// The token an owner is setting up (empty when none).
    pub open spec fn setup_token_of(&self, owner: Seq<u8>) -> Seq<u8> {
        if self.setup_view().dom().contains(owner) {
            self.setup_view()[owner].token_id@
        } else {
            Seq::empty()
        }
    }

    /// The supply an owner is setting up with (0 when none).
    pub open spec fn setup_amount_of(&self, owner: Seq<u8>) -> nat {
        if self.setup_view().dom().contains(owner) {
            self.setup_view()[owner].amount@
        } else {
            0
        }
    }

    /// `other` holds the same settings as `self`.
    pub open spec fn same_config(&self, other: &ManagerStorage) -> bool {
        &&& other.entity_templ_address == self.entity_templ_address
        &&& other.trusted_host_address == self.trusted_host_address
        &&& other.cost_token_id == self.cost_token_id
        &&& other.cost_creation_amount == self.cost_creation_amount
        &&& other.native_token == self.native_token
        &&& other.dex == self.dex
    }

    /// `self` is `before` with the setup of `owner` set to `token` and `amount`.
    pub open spec fn setup_set_to(&self, before: &ManagerStorage, owner: Seq<u8>, token: Seq<u8>, amount: nat) -> bool {
        &&& self.setup_view().dom() == before.setup_view().dom().insert(owner)
        &&& forall|o: Seq<u8>| o != owner && #[trigger] self.setup_view().dom().contains(o)
            ==> self.setup_view()[o] == before.setup_view()[o]
        &&& self.setup_token_of(owner) == token
        &&& self.setup_amount_of(owner) == amount
    }

    /// The storage after `init`: each setting is stored only where nothing
    /// is stored yet (an empty token id and a zero amount count as nothing).
    pub open spec fn init_result(self, entity_template_address: Address, cost_token: TokenId, cost_entity_creation: BigNat) -> ManagerStorage {
        ManagerStorage {
            entity_templ_address: if self.entity_templ_address is None {
                Some(entity_template_address)
            } else {
                self.entity_templ_address
            },
            cost_token_id: if self.cost_token_id@.len() == 0 {
                cost_token
            } else {
                self.cost_token_id
            },
            cost_creation_amount: if self.cost_creation_amount@ == 0 {
                cost_entity_creation
            } else {
                self.cost_creation_amount
            },
            ..self
        }
    }

    /// Empty storage, before `init`.
    pub fn new() -> (r: ManagerStorage)
        ensures
            r.wf(),
            r.entity_templ_address is None,
            r.trusted_host_address is None,
            r.cost_token_id@.len() == 0,
            r.cost_creation_amount@ == 0,
            r.native_token@.len() == 0,
            r.dex.is_unset(),
            r.entities_view() == Map::<Seq<u8>, Address>::empty(),
            r.setup_view() == Map::<Seq<u8>, SetupInfo>::empty(),
    {
        ManagerStorage {
            entity_templ_address: None,
            trusted_host_address: None,
            cost_token_id: Vec::new(),
            cost_creation_amount: BigNat::zero(),
            native_token: Vec::new(),
            dex: DexSettings::new(),
            entities: KeyedStore::new(),
            setup: KeyedStore::new(),
        }
    }

    /// Records the setup of `owner`.
    fn set_setup(&mut self, owner: &Address, token_id: TokenId, amount: BigNat)
        requires
            old(self).wf(),
        ensures
            final(self).wf(),
            final(self).same_config(old(self)),
            final(self).entities == old(self).entities,
            final(self).setup_view() == old(self).setup_view().insert(
                owner@,
                SetupInfo { token_id: token_id, amount: amount },
            ),
            final(self).setup_set_to(old(self), owner@, token_id@, amount@),
    {
        let key = address_key(owner);
        self.setup.insert(key, SetupInfo { token_id, amount });
    }
}

/// The Manager contract: it issues tokens for owners who set up an entity,
/// deploys entities from a template, and keeps which token belongs to which
/// entity. Each refused call leaves the storage as it was.
pub trait Manager: FactoryModule {
    /// The contract's storage.
    spec fn storage(&self) -> ManagerStorage;

    /// Stores the template address, the cost token and the creation cost,
    /// each only where nothing is stored yet.
    fn init(&mut self, entity_template_address: Address, cost_token: TokenId, cost_entity_creation: BigNat)
        ensures
            final(self).storage() == old(self).storage().init_result(
                entity_template_address,
                cost_token,
                cost_entity_creation,
            ),
            old(self).storage().entity_templ_address is Some ==> final(self).storage().entity_templ_address
                == old(self).storage().entity_templ_address,
            old(self).storage().entity_templ_address is None ==> final(self).storage().entity_templ_address
                == Some(entity_template_address),
            old(self).storage().cost_token_id@.len() > 0 ==> final(self).storage().cost_token_id@
                == old(self).storage().cost_token_id@,
            old(self).storage().cost_token_id@.len() == 0 ==> final(self).storage().cost_token_id@ == cost_token@,
            old(self).storage().cost_creation_amount@ > 0 ==> final(self).storage().cost_creation_amount@
                == old(self).storage().cost_creation_amount@,
            old(self).storage().cost_creation_amount@ == 0 ==> final(self).storage().cost_creation_amount@
                == cost_entity_creation@,
            final(self).storage().trusted_host_address == old(self).storage().trusted_host_address,
            final(self).storage().native_token == old(self).storage().native_token,
            final(self).storage().dex == old(self).storage().dex,
            final(self).storage().entities == old(self).storage().entities,
            final(self).storage().setup == old(self).storage().setup,
    ;

    /// Asks for a new token to be issued for the caller; the EGLD paid is
    /// the issue cost.
    fn create_entity_token_endpoint(
        &self,
        caller: Address,
        egld_value: BigNat,
        token_name: Vec<u8>,
        token_ticker: Vec<u8>,
        amount: BigNat,
    ) -> (r: Result<ManagerAction, ManagerError>)
        ensures
            amount@ == 0 ==> r == Err::<ManagerAction, ManagerError>(ManagerError::AmountMustBePositive),
            amount@ > 0 ==> r == Ok::<ManagerAction, ManagerError>(
                ManagerAction::IssueToken {
                    token_name: token_name,
                    token_ticker: token_ticker,
                    amount: amount,
                    issue_cost: egld_value,
                    initial_caller: caller,
                },
            ),
    ;

    /// Registers the token that the caller sent as proof, with `supply`, as
    /// the caller's setup, and sends the proof back.
    fn register_entity_token_endpoint(&mut self, caller: Address, proof: TokenPayment, supply: BigNat) -> (r: Vec<
        ManagerAction,
    >)
        requires
            old(self).storage().wf(),
        ensures
            final(self).storage().wf(),
            final(self).storage().same_config(&old(self).storage()),
            final(self).storage().entities == old(self).storage().entities,
            final(self).storage().setup_set_to(&old(self).storage(), caller@, proof.token_id@, supply@),
            r@ == seq![ManagerAction::SendEsdt { to: caller, payment: proof }],
    ;

    /// The checks that precede the deployment of an entity for `token_id`,
    /// paid with `payment`: the payment must be in the cost token and at
    /// least the creation cost, the caller must be setting up `token_id`
    /// with a positive supply; then the deployment is asked for, with the
    /// token, the caller's supply and the caller as leader.
    fn create_entity_endpoint(&self, caller: Address, payment: &TokenPayment, token_id: &[u8]) -> (r: Result<
        DeployRequest,
        ManagerError,
    >)
        requires
            self.storage().wf(),
        ensures
            payment.token_id@ != self.storage().cost_token_id@ ==> r == Err::<DeployRequest, ManagerError>(
                ManagerError::InvalidCostToken),
            payment.token_id@ == self.storage().cost_token_id@ && payment.amount@
                < self.storage().cost_creation_amount@ ==> r == Err::<DeployRequest, ManagerError>(
                ManagerError::InvalidCostAmount),
            payment.token_id@ == self.storage().cost_token_id@ && payment.amount@
                >= self.storage().cost_creation_amount@ && self.storage().setup_token_of(caller@) != token_id@
                ==> r == Err::<DeployRequest, ManagerError>(ManagerError::TokenNotInSetup),
            payment.token_id@ == self.storage().cost_token_id@ && payment.amount@
                >= self.storage().cost_creation_amount@ && self.storage().setup_token_of(caller@) == token_id@
                && self.storage().setup_amount_of(caller@) == 0 ==> r == Err::<DeployRequest, ManagerError>(
                ManagerError::SetupTokenNotAvailable),
            payment.token_id@ == self.storage().cost_token_id@ && payment.amount@
                >= self.storage().cost_creation_amount@ && self.storage().setup_token_of(caller@) == token_id@
                && self.storage().setup_amount_of(caller@) > 0 ==> create_entity_outcome(
                self.storage().trusted_host_address,
                self.storage().entity_templ_address,
                token_id@,
                self.storage().setup_amount_of(caller@),
                caller,
                r,
            ),
            r is Ok <==> {
                &&& payment.token_id@ == self.storage().cost_token_id@
                &&& payment.amount@ >= self.storage().cost_creation_amount@
                &&& self.storage().setup_token_of(caller@) == token_id@
                &&& self.storage().setup_amount_of(caller@) > 0
                &&& self.storage().trusted_host_address is Some
                &&& self.storage().entity_templ_address is Some
            },
            r matches Ok(request) ==> {
                &&& request.initial_tokens@ == self.storage().setup_amount_of(caller@)
                &&& request.token_id@ == token_id@
                &&& request.leader == caller
                &&& request.template == self.storage().entity_templ_address.unwrap()
                &&& request.trusted_host == self.storage().trusted_host_address.unwrap()
                &&& request.code_metadata == 0x0506
            },
    ;

    /// What follows the deployment of the entity for `token_id` at
    /// `entity_address`: a zero address is refused; otherwise the entity is
    /// announced and registered for the token, its features are enabled, the
    /// cost payment is burnt and the entity gets the token's roles.
    fn create_entity_deployed(
        &mut self,
        token_id: TokenId,
        payment: TokenPayment,
        entity_address: Address,
        features: Vec<Feature>,
    ) -> (r: Result<Vec<ManagerAction>, ManagerError>)
        requires
            old(self).storage().wf(),
        ensures
            final(self).storage().wf(),
            entity_address@ == zero_address_view() ==> r == Err::<Vec<ManagerAction>, ManagerError>(
                ManagerError::AddressIsZero) && final(self).storage() == old(self).storage(),
            entity_address@ != zero_address_view() ==> {
                &&& final(self).storage().same_config(&old(self).storage())
                &&& final(self).storage().setup == old(self).storage().setup
                &&& final(self).storage().entities_view() == old(self).storage().entities_view().insert(
                    token_id@,
                    entity_address,
                )
                &&& r matches Ok(actions)
                &&& actions@.len() == 4
                &&& actions@[0] == ManagerAction::Emit(ManagerEvent::EntityCreated { entity: entity_address })
                &&& actions@[1] == (ManagerAction::EnableEntityFeatures { entity: entity_address, features: features })
                &&& actions@[2] == (ManagerAction::BurnEsdt { token_id: payment.token_id, nonce: 0, amount: payment.amount })
                &&& actions@[3] matches ManagerAction::SetEntityEsdtRoles { token_id: t, entity }
                &&& t@ == token_id@
                &&& entity == entity_address
            },
    ;

    /// Ends the caller's setup of `token_id`: its entity must exist; the
    /// setup is cleared and the token's ownership goes to the entity.
    fn finalize_entity_endpoint(&mut self, caller: Address, token_id: TokenId) -> (r: Result<ManagerAction, ManagerError>)
        requires
            old(self).storage().wf(),
        ensures
            final(self).storage().wf(),
            old(self).storage().setup_token_of(caller@) != token_id@ ==> r == Err::<ManagerAction, ManagerError>(
                ManagerError::TokenNotInSetup) && final(self).storage() == old(self).storage(),
            old(self).storage().setup_token_of(caller@) == token_id@ && !old(self).storage().entities_view().dom().contains(
                token_id@,
            ) ==> r == Err::<ManagerAction, ManagerError>(ManagerError::EntityDoesNotExist) && final(self).storage()
                == old(self).storage(),
            old(self).storage().setup_token_of(caller@) == token_id@ && old(self).storage().entities_view().dom().contains(
                token_id@,
            ) ==> {
                &&& r == Ok::<ManagerAction, ManagerError>(
                    ManagerAction::TransferEntityEsdtOwnership {
                        token_id: token_id,
                        entity: old(self).storage().entities_view()[token_id@],
                    },
                )
                &&& final(self).storage().same_config(&old(self).storage())
                &&& final(self).storage().entities == old(self).storage().entities
                &&& final(self).storage().setup_view() == old(self).storage().setup_view().remove(caller@)
            },
    ;

    /// Handles the end of a token issue for `initial_caller`: an issued
    /// token becomes the caller's setup and its supply is sent to the caller;
    /// after a failure the returned EGLD goes back.
    fn token_issue_callback(&mut self, initial_caller: Address, result: IssueResult) -> (r: Vec<ManagerAction>)
        requires
            old(self).storage().wf(),
        ensures
            final(self).storage().wf(),
            final(self).storage().same_config(&old(self).storage()),
            final(self).storage().entities == old(self).storage().entities,
            match result {
                IssueResult::Issued { payment } => {
                    &&& final(self).storage().setup_set_to(
                        &old(self).storage(),
                        initial_caller@,
                        payment.token_id@,
                        payment.amount@,
                    )
                    &&& r@.len() == 1
                    &&& is_send_esdt(r@[0], initial_caller, payment.token_id@, 0, payment.amount@)
                },
                IssueResult::Failed { egld_returned } => {
                    &&& final(self).storage().setup == old(self).storage().setup
                    &&& egld_returned@ > 0 ==> r@ == seq![ManagerAction::SendEgld { to: initial_caller, amount: egld_returned }]
                    &&& egld_returned@ == 0 ==> r@.len() == 0
                },
            },
    ;

    /// Upgrades the entity registered for `token_id`, with `gas`, the gas left.
    fn upgrade_entity_endpoint(&self, token_id: &[u8], gas: u64) -> (r: Result<Vec<ManagerAction>, ManagerError>)
        requires
            self.storage().wf(),
        ensures
            !self.storage().entities_view().dom().contains(token_id@) ==> r == Err::<
                Vec<ManagerAction>,
                ManagerError,
            >(ManagerError::EntityDoesNotExist),
            self.storage().entities_view().dom().contains(token_id@) ==> upgrade_entity_outcome(
                self.storage().trusted_host_address,
                self.storage().entity_templ_address,
                self.storage().entities_view()[token_id@],
                gas,
                r,
            ),
    ;

    /// The entity address registered for `token_id`, or the zero address.
    fn get_entity_address_view(&self, token_id: &[u8]) -> (r: Address)
        requires
            self.storage().wf(),
        ensures
            self.storage().entities_view().dom().contains(token_id@) ==> r
                == self.storage().entities_view()[token_id@],
            !self.storage().entities_view().dom().contains(token_id@) ==> r@ == zero_address_view(),
    ;

    /// The entity address registered for `token_id`; refused when there is none.
    fn get_entity_address(&self, token_id: &[u8]) -> (r: Result<Address, ManagerError>)
        requires
            self.storage().wf(),
        ensures
            self.storage().entities_view().dom().contains(token_id@) ==> r == Ok::<Address, ManagerError>(
                self.storage().entities_view()[token_id@],
            ),
            !self.storage().entities_view().dom().contains(token_id@) ==> r == Err::<Address, ManagerError>(
                ManagerError::EntityDoesNotExist),
    ;

    /// Sends the returned EGLD back to `initial_caller`, if there is any.
    fn send_back_egld(&self, initial_caller: Address, egld_returned: BigNat) -> (r: Option<ManagerAction>)
        ensures
            egld_returned@ > 0 ==> r == Some(ManagerAction::SendEgld { to: initial_caller, amount: egld_returned }),
            egld_returned@ == 0 ==> r == None::<ManagerAction>,
    ;

    /// Refuses unless `caller` is setting up an entity with `token_id`.
    fn require_caller_is_setup_owner(&self, caller: &Address, token_id: &[u8]) -> (r: Result<(), ManagerError>)
        requires
            self.storage().wf(),
        ensures
            self.storage().setup_token_of(caller@) == token_id@ ==> r == Ok::<(), ManagerError>(()),
            self.storage().setup_token_of(caller@) != token_id@ ==> r == Err::<(), ManagerError>(
                ManagerError::TokenNotInSetup),
    ;

    /// The token that `owner` is setting up an entity with (empty when none).
    fn setup_token_id(&self, owner: &Address) -> (r: TokenId)
        requires
            self.storage().wf(),
        ensures
            r@ == self.storage().setup_token_of(owner@),
    ;

    /// The supply that `owner` is setting up an entity with (0 when none).
    fn setup_token_amount(&self, owner: &Address) -> (r: BigNat)
        requires
            self.storage().wf(),
        ensures
            r@ == self.storage().setup_amount_of(owner@),
    ;
}

impl EventsModule for ManagerStorage {
    fn entity_created_event(&self, entity: Address) -> (r: ManagerEvent) {
        ManagerEvent::EntityCreated { entity }
    }

    fn entity_upgraded_event(&self, entity: Address) -> (r: ManagerEvent) {
        ManagerEvent::EntityUpgraded { entity }
    }

    fn boost_event(&self, booster: Address, entity: Address, amount: BigNat, virtual_amount: BigNat, bonus_factor: u8) -> (r:
        ManagerEvent) {
        ManagerEvent::Boost { booster, entity, amount, virtual_amount, bonus_factor }
    }

    fn voucher_redeemed_event(&self, caller: Address, nonce: u64) -> (r: ManagerEvent) {
        ManagerEvent::VoucherRedeemed { caller, nonce }
    }
}

impl Manager for ManagerStorage {
    open spec fn storage(&self) -> ManagerStorage {
        *self
    }

    fn init(&mut self, entity_template_address: Address, cost_token: TokenId, cost_entity_creation: BigNat) {
        if self.entity_templ_address.is_none() {
            self.entity_templ_address = Some(entity_template_address);
        }
        if self.cost_token_id.len() == 0 {
            self.cost_token_id = cost_token;
        }
        if self.cost_creation_amount.is_zero() {
            self.cost_creation_amount = cost_entity_creation;
        }
    }

    fn create_entity_token_endpoint(
        &self,
        caller: Address,
        egld_value: BigNat,
        token_name: Vec<u8>,
        token_ticker: Vec<u8>,
        amount: BigNat,
    ) -> (r: Result<ManagerAction, ManagerError>) {
        if amount.is_zero() {
            return Err(ManagerError::AmountMustBePositive);
        }
        Ok(ManagerAction::IssueToken { token_name, token_ticker, amount, issue_cost: egld_value, initial_caller: caller })
    }

    fn register_entity_token_endpoint(&mut self, caller: Address, proof: TokenPayment, supply: BigNat) -> (r: Vec<
        ManagerAction,
    >) {
        let token = copy_bytes(proof.token_id.as_slice());
        self.set_setup(&caller, token, supply);
        vec![ManagerAction::SendEsdt { to: caller, payment: proof }]
    }

    fn create_entity_endpoint(&self, caller: Address, payment: &TokenPayment, token_id: &[u8]) -> (r: Result<
        DeployRequest,
        ManagerError,
    >) {
        if !bytes_eq(payment.token_id.as_slice(), self.cost_token_id.as_slice()) {
            return Err(ManagerError::InvalidCostToken);
        }
        if !payment.amount.ge(&self.cost_creation_amount) {
            return Err(ManagerError::InvalidCostAmount);
        }
        self.require_caller_is_setup_owner(&caller, token_id)?;
        let initial_tokens = self.setup_token_amount(&caller);
        if initial_tokens.is_zero() {
            return Err(ManagerError::SetupTokenNotAvailable);
        }
        self.create_entity(token_id, initial_tokens, caller)
    }

    fn create_entity_deployed(
        &mut self,
        token_id: TokenId,
        payment: TokenPayment,
        entity_address: Address,
        features: Vec<Feature>,
    ) -> (r: Result<Vec<ManagerAction>, ManagerError>) {
        let event = self.entity_deployed(entity_address)?;
        let key = copy_bytes(token_id.as_slice());
        self.entities.insert(key, entity_address);
        Ok(
            vec![
                ManagerAction::Emit(event),
                ManagerAction::EnableEntityFeatures { entity: entity_address, features },
                ManagerAction::BurnEsdt { token_id: payment.token_id, nonce: 0, amount: payment.amount },
                ManagerAction::SetEntityEsdtRoles { token_id, entity: entity_address },
            ],
        )
    }

    fn finalize_entity_endpoint(&mut self, caller: Address, token_id: TokenId) -> (r: Result<ManagerAction, ManagerError>) {
        self.require_caller_is_setup_owner(&caller, token_id.as_slice())?;
        let entity_address = self.get_entity_address(token_id.as_slice())?;
        let key = address_key(&caller);
        self.setup.remove(key.as_slice());
        Ok(ManagerAction::TransferEntityEsdtOwnership { token_id, entity: entity_address })
    }

    fn token_issue_callback(&mut self, initial_caller: Address, result: IssueResult) -> (r: Vec<ManagerAction>) {
        match result {
            IssueResult::Issued { payment } => {
                let token = copy_bytes(payment.token_id.as_slice());
                self.set_setup(&initial_caller, token, payment.amount.copy());
                vec![
                    ManagerAction::SendEsdt {
                        to: initial_caller,
                        payment: TokenPayment { token_id: payment.token_id, nonce: 0, amount: payment.amount },
                    },
                ]
            },
            IssueResult::Failed { egld_returned } => {
                match self.send_back_egld(initial_caller, egld_returned) {
                    Some(a) => vec![a],
                    None => Vec::new(),
                }
            },
        }
    }

    fn upgrade_entity_endpoint(&self, token_id: &[u8], gas: u64) -> (r: Result<Vec<ManagerAction>, ManagerError>) {
        let address = self.get_entity_address(token_id)?;
        self.upgrade_entity(address, gas)
    }

    fn get_entity_address_view(&self, token_id: &[u8]) -> (r: Address) {
        match self.entities.get(token_id) {
            Some(a) => *a,
            None => {
                let z: Address = [0u8; 32];
                assert(z@ =~= zero_address_view());
                z
            },
        }
    }

    fn get_entity_address(&self, token_id: &[u8]) -> (r: Result<Address, ManagerError>) {
        match self.entities.get(token_id) {
            Some(a) => Ok(*a),
            None => Err(ManagerError::EntityDoesNotExist),
        }
    }

    fn send_back_egld(&self, initial_caller: Address, egld_returned: BigNat) -> (r: Option<ManagerAction>) {
        if !egld_returned.is_zero() {
            Some(ManagerAction::SendEgld { to: initial_caller, amount: egld_returned })
        } else {
            None
        }
    }

    fn require_caller_is_setup_owner(&self, caller: &Address, token_id: &[u8]) -> (r: Result<(), ManagerError>) {
        let owned = self.setup_token_id(caller);
        if bytes_eq(owned.as_slice(), token_id) {
            Ok(())
        } else {
            Err(ManagerError::TokenNotInSetup)
        }
    }

    fn setup_token_id(&self, owner: &Address) -> (r: TokenId) {
        let key = address_key(owner);
        match self.setup.get(key.as_slice()) {
            Some(info) => copy_bytes(info.token_id.as_slice()),
            None => Vec::new(),
        }
    }

    fn setup_token_amount(&self, owner: &Address) -> (r: BigNat) {
        let key = address_key(owner);
        match self.setup.get(key.as_slice()) {
            Some(info) => info.amount.copy(),
            None => BigNat::zero(),
        }
    }
}

} // verus!
