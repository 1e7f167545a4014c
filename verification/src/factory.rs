use vstd::prelude::*;

use crate::events::{EventsModule, ManagerEvent};
use crate::manager::{ManagerAction, ManagerError, ManagerStorage};
use crate::bignat::BigNat;
use crate::types::{copy_bytes, is_zero_address, zero_address_view, Address, TokenId};

verus! {

/// Code metadata flag: the contract can be upgraded.
pub const CODE_METADATA_UPGRADEABLE: u16 = 0x0100;

/// Code metadata flag: other contracts can read the contract's storage.
pub const CODE_METADATA_READABLE: u16 = 0x0400;

/// Code metadata flag: the contract can receive funds without an endpoint call.
pub const CODE_METADATA_PAYABLE: u16 = 0x0002;

/// Code metadata flag: like payable, but only for funds sent by contracts.
pub const CODE_METADATA_PAYABLE_BY_SC: u16 = 0x0004;

/// A request to deploy a new entity as a copy of the template contract.
/// The entity is initialised as `Entity::init` takes it: with the trusted
/// host, `Some(token_id)`, `Some(initial_tokens)` and `Some(leader)`.
#[derive(Clone, Debug, PartialEq, Eq)]
pub struct DeployRequest {
    pub template: Address,
    pub trusted_host: Address,
    pub token_id: TokenId,
    pub initial_tokens: BigNat,
    pub leader: Address,
    pub code_metadata: u16,
}

/// `r` is the outcome of preparing the deployment of an entity for
/// `token_id` with `initial_tokens`, led by `leader`, given the stored
/// trusted host and template.
pub open spec fn create_entity_outcome(
    trusted_host: Option<Address>,
    template: Option<Address>,
    token_id: Seq<u8>,
    initial_tokens: nat,
    leader: Address,
    r: Result<DeployRequest, ManagerError>,
) -> bool {
    if trusted_host is None {
        r == Err::<DeployRequest, ManagerError>(ManagerError::TrustedHostNotConfigured)
    } else if template is None {
        r == Err::<DeployRequest, ManagerError>(ManagerError::StorageDecode)
    } else {
        &&& r matches Ok(request)
        &&& request.template == template.unwrap()
        &&& request.trusted_host == trusted_host.unwrap()
        &&& request.token_id@ == token_id
        &&& request.initial_tokens@ == initial_tokens
        &&& request.leader == leader
        &&& request.code_metadata == 0x0506
    }
}

/// `r` is the outcome of upgrading the entity at `address` with `gas`,
/// given the stored trusted host and template.
pub open spec fn upgrade_entity_outcome(
    trusted_host: Option<Address>,
    template: Option<Address>,
    address: Address,
    gas: u64,
    r: Result<Vec<ManagerAction>, ManagerError>,
) -> bool {
    if trusted_host is None {
        r == Err::<Vec<ManagerAction>, ManagerError>(ManagerError::TrustedHostNotConfigured)
    } else if template is None {
        r == Err::<Vec<ManagerAction>, ManagerError>(ManagerError::StorageDecode)
    } else {
        &&& r matches Ok(actions)
        &&& actions@ == seq![
            ManagerAction::UpgradeEntity {
                address: address,
                gas: gas,
                template: template.unwrap(),
                code_metadata: 0x0506,
                trusted_host: trusted_host.unwrap(),
            },
            ManagerAction::Emit(ManagerEvent::EntityUpgraded { entity: address }),
        ]
    }
}

/// Deploys and upgrades entity contracts from the template.
pub trait FactoryModule: EventsModule {
    /// The stored trusted host address.
    spec fn factory_trusted_host(&self) -> Option<Address>;

    /// The stored template address.
    spec fn factory_template(&self) -> Option<Address>;

    /// The code metadata of every deployed or upgraded entity: upgradeable,
    /// readable, payable and payable by contracts.
    fn get_deploy_code_metadata(&self) -> (r: u16)
        ensures
            r == CODE_METADATA_UPGRADEABLE | CODE_METADATA_READABLE | CODE_METADATA_PAYABLE
                | CODE_METADATA_PAYABLE_BY_SC,
            r == 0x0506,
    ;

    /// What deploying a new entity for `token_id` with `initial_tokens`, led
    /// by `leader`, needs: the trusted host must be configured, and the
    /// template address is read from storage.
    fn create_entity(&self, token_id: &[u8], initial_tokens: BigNat, leader: Address) -> (r: Result<
        DeployRequest,
        ManagerError,
    >)
        ensures
            create_entity_outcome(
                self.factory_trusted_host(),
                self.factory_template(),
                token_id@,
                initial_tokens@,
                leader,
                r,
            ),
            r is Ok <==> (self.factory_trusted_host() is Some && self.factory_template() is Some),
            r matches Ok(request) ==> {
                &&& request.token_id@ == token_id@
                &&& request.initial_tokens@ == initial_tokens@
                &&& request.leader == leader
                &&& request.template == self.factory_template().unwrap()
                &&& request.trusted_host == self.factory_trusted_host().unwrap()
                &&& request.code_metadata == 0x0506
            },
    ;

    /// What follows the deployment of an entity at `address`: a zero address
    /// is refused, any other is announced.
    fn entity_deployed(&self, address: Address) -> (r: Result<ManagerEvent, ManagerError>)
        ensures
            address@ == zero_address_view() ==> r == Err::<ManagerEvent, ManagerError>(
                ManagerError::AddressIsZero),
            address@ != zero_address_view() ==> r == Ok::<ManagerEvent, ManagerError>(
                ManagerEvent::EntityCreated { entity: address },
            ),
    ;

    /// Upgrades the entity at `address` to the template's code, with the
    /// trusted host as the upgrade argument and `gas`, the gas left.
    fn upgrade_entity(&self, address: Address, gas: u64) -> (r: Result<Vec<ManagerAction>, ManagerError>)
        ensures
            upgrade_entity_outcome(self.factory_trusted_host(), self.factory_template(), address, gas, r),
    ;
}

impl FactoryModule for ManagerStorage {
    open spec fn factory_trusted_host(&self) -> Option<Address> {
        self.trusted_host_address
    }

    open spec fn factory_template(&self) -> Option<Address> {
        self.entity_templ_address
    }

    fn get_deploy_code_metadata(&self) -> (r: u16) {
        let r = CODE_METADATA_UPGRADEABLE | CODE_METADATA_READABLE | CODE_METADATA_PAYABLE
            | CODE_METADATA_PAYABLE_BY_SC;
        assert(0x0100u16 | 0x0400u16 | 0x0002u16 | 0x0004u16 == 0x0506u16) by (bit_vector);
        r
    }

    fn create_entity(&self, token_id: &[u8], initial_tokens: BigNat, leader: Address) -> (r: Result<
        DeployRequest,
        ManagerError,
    >) {
        let trusted_host = match self.trusted_host_address {
            Some(a) => a,
            None => return Err(ManagerError::TrustedHostNotConfigured),
        };
        let template = match self.entity_templ_address {
            Some(a) => a,
            None => return Err(ManagerError::StorageDecode),
        };
        Ok(
            DeployRequest {
                template,
                trusted_host,
                token_id: copy_bytes(token_id),
                initial_tokens,
                leader,
                code_metadata: self.get_deploy_code_metadata(),
            },
        )
    }

    fn entity_deployed(&self, address: Address) -> (r: Result<ManagerEvent, ManagerError>) {
        if is_zero_address(&address) {
            return Err(ManagerError::AddressIsZero);
        }
        Ok(self.entity_created_event(address))
    }

    fn upgrade_entity(&self, address: Address, gas: u64) -> (r: Result<Vec<ManagerAction>, ManagerError>) {
        let trusted_host = match self.trusted_host_address {
            Some(a) => a,
            None => return Err(ManagerError::TrustedHostNotConfigured),
        };
        let template = match self.entity_templ_address {
            Some(a) => a,
            None => return Err(ManagerError::StorageDecode),
        };
        let metadata = self.get_deploy_code_metadata();
        let event = self.entity_upgraded_event(address);
        Ok(
            vec![
                ManagerAction::UpgradeEntity { address, gas, template, code_metadata: metadata, trusted_host },
                ManagerAction::Emit(event),
            ],
        )
    }
}

} // verus!
