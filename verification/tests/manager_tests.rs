use peerme_dao::bignat::BigNat;
use peerme_dao::dex::DexSettings;
use peerme_dao::events::ManagerEvent;
use peerme_dao::factory::{DeployRequest, FactoryModule};
use peerme_dao::manager::{Feature, IssueResult, Manager, ManagerAction, ManagerError, ManagerStorage};
use peerme_dao::types::{Address, TokenPayment};

const COST_AMOUNT_ENTITY_CREATION: u128 = 500;

fn addr(b: u8) -> Address {
    [b; 32]
}

fn n(v: u128) -> BigNat {
    BigNat::from_u128(v)
}

fn payment(token: &str, nonce: u64, amount: u128) -> TokenPayment {
    TokenPayment { token_id: token.as_bytes().to_vec(), nonce, amount: n(amount) }
}

fn setup_manager() -> ManagerStorage {
    let mut m = ManagerStorage::new();
    m.init(addr(9), b"EGLD".to_vec(), n(COST_AMOUNT_ENTITY_CREATION));
    m.trusted_host_address = Some(addr(7));
    m
}

#[test]
fn it_fails_when_wrong_cost_amount() {
    let setup = setup_manager();
    let caller = addr(1);
    let wrong_cost_amount = COST_AMOUNT_ENTITY_CREATION - 1;

    let result = setup.create_entity_endpoint(caller, &payment("EGLD", 0, wrong_cost_amount), b"");
    assert_eq!(result, Err(ManagerError::InvalidCostAmount));
    assert_eq!(result.unwrap_err().message(), "invalid cost amount");
}

#[test]
fn init_stores_settings_only_where_empty() {
    let mut m = ManagerStorage::new();
    m.init(addr(9), b"COST-1".to_vec(), n(100));
    assert_eq!(m.entity_templ_address, Some(addr(9)));
    assert_eq!(m.cost_token_id, b"COST-1".to_vec());
    assert_eq!(m.cost_creation_amount, n(100));

    m.init(addr(8), b"OTHER-2".to_vec(), n(5));
    assert_eq!(m.entity_templ_address, Some(addr(9)));
    assert_eq!(m.cost_token_id, b"COST-1".to_vec());
    assert_eq!(m.cost_creation_amount, n(100));
}

#[test]
fn init_fills_a_zero_cost() {
    let mut m = ManagerStorage::new();
    m.init(addr(9), b"COST-1".to_vec(), n(0));
    assert!(m.cost_creation_amount.is_zero());
    m.init(addr(8), b"OTHER-2".to_vec(), n(42));
    assert_eq!(m.cost_creation_amount, n(42));
    assert_eq!(m.cost_token_id, b"COST-1".to_vec());
}

#[test]
fn create_entity_token_requires_positive_amount() {
    let m = setup_manager();
    let r = m.create_entity_token_endpoint(addr(1), n(50), b"Name".to_vec(), b"TCK".to_vec(), n(0));
    assert_eq!(r, Err(ManagerError::AmountMustBePositive));
    assert_eq!(ManagerError::AmountMustBePositive.message(), "amount must be greater than zero");

    let r = m.create_entity_token_endpoint(addr(1), n(50), b"Name".to_vec(), b"TCK".to_vec(), n(1000));
    assert_eq!(
        r,
        Ok(ManagerAction::IssueToken {
            token_name: b"Name".to_vec(),
            token_ticker: b"TCK".to_vec(),
            amount: n(1000),
            issue_cost: n(50),
            initial_caller: addr(1),
        })
    );
}

#[test]
fn register_records_setup_and_returns_proof() {
    let mut m = setup_manager();
    let proof = payment("DAO-123456", 3, 1);
    let actions = m.register_entity_token_endpoint(addr(1), proof.clone(), n(1000));
    assert_eq!(actions, vec![ManagerAction::SendEsdt { to: addr(1), payment: proof }]);
    assert_eq!(m.setup_token_id(&addr(1)), b"DAO-123456".to_vec());
    assert_eq!(m.setup_token_amount(&addr(1)), n(1000));
    assert_eq!(m.setup_token_id(&addr(2)), Vec::<u8>::new());
    assert!(m.setup_token_amount(&addr(2)).is_zero());
    assert_eq!(m.require_caller_is_setup_owner(&addr(1), b"DAO-123456"), Ok(()));
    assert_eq!(m.require_caller_is_setup_owner(&addr(2), b"DAO-123456"), Err(ManagerError::TokenNotInSetup));
}

#[test]
fn create_entity_checks_in_order() {
    let mut m = setup_manager();
    let caller = addr(1);
    assert_eq!(
        m.create_entity_endpoint(caller, &payment("WRONG-1", 0, 500), b"DAO-123456"),
        Err(ManagerError::InvalidCostToken)
    );
    assert_eq!(
        m.create_entity_endpoint(caller, &payment("EGLD", 0, 499), b"DAO-123456"),
        Err(ManagerError::InvalidCostAmount)
    );
    assert_eq!(
        m.create_entity_endpoint(caller, &payment("EGLD", 0, 500), b"DAO-123456"),
        Err(ManagerError::TokenNotInSetup)
    );
    m.register_entity_token_endpoint(caller, payment("DAO-123456", 0, 1), n(0));
    assert_eq!(
        m.create_entity_endpoint(caller, &payment("EGLD", 0, 500), b"DAO-123456"),
        Err(ManagerError::SetupTokenNotAvailable)
    );
    m.register_entity_token_endpoint(caller, payment("DAO-123456", 0, 1), n(1000));
    assert_eq!(
        m.create_entity_endpoint(caller, &payment("EGLD", 0, 600), b"DAO-123456"),
        Ok(DeployRequest {
            template: addr(9),
            trusted_host: addr(7),
            token_id: b"DAO-123456".to_vec(),
            initial_tokens: n(1000),
            leader: caller,
            code_metadata: 0x0506,
        })
    );
}

#[test]
fn create_entity_needs_trusted_host() {
    let mut m = ManagerStorage::new();
    m.init(addr(9), b"EGLD".to_vec(), n(500));
    m.register_entity_token_endpoint(addr(1), payment("DAO-123456", 0, 1), n(1000));
    assert_eq!(
        m.create_entity_endpoint(addr(1), &payment("EGLD", 0, 500), b"DAO-123456"),
        Err(ManagerError::TrustedHostNotConfigured)
    );
    assert_eq!(ManagerError::TrustedHostNotConfigured.message(), "trusted host address needs to be configured");
}

#[test]
fn create_entity_needs_template() {
    let mut m = ManagerStorage::new();
    m.trusted_host_address = Some(addr(7));
    assert_eq!(m.create_entity(b"DAO-1", n(5), addr(1)), Err(ManagerError::StorageDecode));
}

#[test]
fn deployed_entity_is_registered() {
    let mut m = setup_manager();
    let features = vec![Feature { name: b"f".to_vec(), value: b"v".to_vec() }];
    let r = m.create_entity_deployed(b"DAO-123456".to_vec(), payment("EGLD", 0, 500), addr(5), features.clone());
    assert_eq!(
        r,
        Ok(vec![
            ManagerAction::Emit(ManagerEvent::EntityCreated { entity: addr(5) }),
            ManagerAction::EnableEntityFeatures { entity: addr(5), features },
            ManagerAction::BurnEsdt { token_id: b"EGLD".to_vec(), nonce: 0, amount: n(500) },
            ManagerAction::SetEntityEsdtRoles { token_id: b"DAO-123456".to_vec(), entity: addr(5) },
        ])
    );
    assert_eq!(m.get_entity_address(b"DAO-123456"), Ok(addr(5)));
    assert_eq!(m.get_entity_address_view(b"DAO-123456"), addr(5));
    assert_eq!(m.get_entity_address(b"OTHER-1"), Err(ManagerError::EntityDoesNotExist));
    assert_eq!(m.get_entity_address_view(b"OTHER-1"), [0u8; 32]);
}

#[test]
fn deployed_at_zero_address_is_refused() {
    let mut m = setup_manager();
    let r = m.create_entity_deployed(b"DAO-123456".to_vec(), payment("EGLD", 0, 500), [0u8; 32], Vec::new());
    assert_eq!(r, Err(ManagerError::AddressIsZero));
    assert_eq!(m.get_entity_address(b"DAO-123456"), Err(ManagerError::EntityDoesNotExist));
    assert_eq!(ManagerError::AddressIsZero.message(), "address is zero");
}

#[test]
fn redeploy_replaces_registered_address() {
    let mut m = setup_manager();
    m.create_entity_deployed(b"DAO-1".to_vec(), payment("EGLD", 0, 5), addr(5), Vec::new()).unwrap();
    m.create_entity_deployed(b"DAO-2".to_vec(), payment("EGLD", 0, 5), addr(6), Vec::new()).unwrap();
    m.create_entity_deployed(b"DAO-1".to_vec(), payment("EGLD", 0, 5), addr(4), Vec::new()).unwrap();
    assert_eq!(m.get_entity_address(b"DAO-1"), Ok(addr(4)));
    assert_eq!(m.get_entity_address(b"DAO-2"), Ok(addr(6)));
}

#[test]
fn finalize_clears_setup_and_hands_over_token() {
    let mut m = setup_manager();
    let caller = addr(1);
    m.register_entity_token_endpoint(caller, payment("DAO-1", 0, 1), n(1000));
    assert_eq!(m.finalize_entity_endpoint(caller, b"DAO-1".to_vec()), Err(ManagerError::EntityDoesNotExist));
    assert_eq!(m.setup_token_amount(&caller), n(1000));
    m.create_entity_deployed(b"DAO-1".to_vec(), payment("EGLD", 0, 500), addr(5), Vec::new()).unwrap();
    assert_eq!(
        m.finalize_entity_endpoint(caller, b"DAO-1".to_vec()),
        Ok(ManagerAction::TransferEntityEsdtOwnership { token_id: b"DAO-1".to_vec(), entity: addr(5) })
    );
    assert_eq!(m.setup_token_id(&caller), Vec::<u8>::new());
    assert!(m.setup_token_amount(&caller).is_zero());
    assert_eq!(m.finalize_entity_endpoint(caller, b"DAO-1".to_vec()), Err(ManagerError::TokenNotInSetup));
    assert_eq!(ManagerError::TokenNotInSetup.message(), "token not in setup");
}

#[test]
fn issue_callback_records_issued_token() {
    let mut m = setup_manager();
    let actions = m.token_issue_callback(addr(1), IssueResult::Issued { payment: payment("DAO-1", 0, 77) });
    assert_eq!(actions, vec![ManagerAction::SendEsdt { to: addr(1), payment: payment("DAO-1", 0, 77) }]);
    assert_eq!(m.setup_token_id(&addr(1)), b"DAO-1".to_vec());
    assert_eq!(m.setup_token_amount(&addr(1)), n(77));
}

#[test]
fn issue_callback_returns_egld_after_failure() {
    let mut m = setup_manager();
    let actions = m.token_issue_callback(addr(1), IssueResult::Failed { egld_returned: n(50) });
    assert_eq!(actions, vec![ManagerAction::SendEgld { to: addr(1), amount: n(50) }]);
    let actions = m.token_issue_callback(addr(1), IssueResult::Failed { egld_returned: n(0) });
    assert!(actions.is_empty());
    assert!(m.setup_token_amount(&addr(1)).is_zero());
    assert_eq!(m.send_back_egld(addr(2), n(3)), Some(ManagerAction::SendEgld { to: addr(2), amount: n(3) }));
    assert_eq!(m.send_back_egld(addr(2), n(0)), None);
}

#[test]
fn upgrade_registered_entity() {
    let mut m = setup_manager();
    assert_eq!(m.upgrade_entity_endpoint(b"DAO-1", 1000), Err(ManagerError::EntityDoesNotExist));
    m.create_entity_deployed(b"DAO-1".to_vec(), payment("EGLD", 0, 500), addr(5), Vec::new()).unwrap();
    assert_eq!(
        m.upgrade_entity_endpoint(b"DAO-1", 1000),
        Ok(vec![
            ManagerAction::UpgradeEntity { address: addr(5), gas: 1000, template: addr(9), code_metadata: 0x0506, trusted_host: addr(7) },
            ManagerAction::Emit(ManagerEvent::EntityUpgraded { entity: addr(5) }),
        ])
    );
}

#[test]
fn upgrade_needs_trusted_host() {
    let mut m = ManagerStorage::new();
    m.init(addr(9), b"EGLD".to_vec(), n(500));
    assert_eq!(m.upgrade_entity(addr(5), 10), Err(ManagerError::TrustedHostNotConfigured));
}

#[test]
fn deploy_code_metadata_is_upgradeable_readable_payable() {
    let m = ManagerStorage::new();
    assert_eq!(m.get_deploy_code_metadata(), 0x0506);
    assert_eq!(m.entity_deployed(addr(3)), Ok(ManagerEvent::EntityCreated { entity: addr(3) }));
}

#[test]
fn fresh_manager_dex_is_unset() {
    let m = ManagerStorage::new();
    assert_eq!(m.dex, DexSettings::new());
    assert_eq!(m.dex.wrap_egld_contract, None);
}

#[test]
fn costs_beyond_128_bits() {
    let mut m = ManagerStorage::new();
    let big = n(u128::MAX).add(&n(1));
    m.init(addr(9), b"EGLD".to_vec(), big.clone());
    m.trusted_host_address = Some(addr(7));
    let short = TokenPayment { token_id: b"EGLD".to_vec(), nonce: 0, amount: n(u128::MAX) };
    assert_eq!(m.create_entity_endpoint(addr(1), &short, b""), Err(ManagerError::InvalidCostAmount));
    let enough = TokenPayment { token_id: b"EGLD".to_vec(), nonce: 0, amount: big };
    assert_eq!(m.create_entity_endpoint(addr(1), &enough, b"DAO-1"), Err(ManagerError::TokenNotInSetup));
}
