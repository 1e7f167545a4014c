use peerme_dao::dex::{ContractProxy, DexModule, DexRouterContractProxy, DexSettings, DexWrapContractProxy, SwapTokensCall, WrapEgldCall};
use peerme_dao::bignat::BigNat;
use peerme_dao::manager::ManagerError;
use peerme_dao::types::{Address, TokenPayment};

fn addr(b: u8) -> Address {
    [b; 32]
}

fn n(v: u128) -> BigNat {
    BigNat::from_u128(v)
}

fn payment(token: &str, nonce: u64, amount: u128) -> TokenPayment {
    TokenPayment { token_id: token.as_bytes().to_vec(), nonce, amount: n(amount) }
}

fn configured() -> DexSettings {
    let mut d = DexSettings::new();
    d.init_dex_module(addr(1), addr(1), b"WEGLD-1".to_vec(), addr(2), addr(3), b"USDC-1".to_vec(), addr(4)).unwrap();
    d
}

#[test]
fn init_dex_module_is_owner_only() {
    let mut d = DexSettings::new();
    let r = d.init_dex_module(addr(5), addr(1), b"WEGLD-1".to_vec(), addr(2), addr(3), b"USDC-1".to_vec(), addr(4));
    assert_eq!(r, Err(ManagerError::OnlyOwner));
    assert_eq!(d, DexSettings::new());
    assert_eq!(ManagerError::OnlyOwner.message(), "Endpoint can only be called by owner");
}

#[test]
fn init_dex_module_stores_settings() {
    let d = configured();
    assert_eq!(d.wegld_token, b"WEGLD-1".to_vec());
    assert_eq!(d.native_token_pair_contract, Some(addr(2)));
    assert_eq!(d.wrap_egld_contract, Some(addr(3)));
    assert_eq!(d.stable_token, b"USDC-1".to_vec());
    assert_eq!(d.stable_token_pair_contract, Some(addr(4)));
}

#[test]
fn wrap_egld_asks_the_wrap_contract() {
    let d = configured();
    assert_eq!(
        d.wrap_egld(n(25)),
        Ok((WrapEgldCall { to: addr(3), egld_value: n(25) }, payment("WEGLD-1", 0, 25)))
    );
    assert_eq!(DexSettings::new().wrap_egld(n(25)), Err(ManagerError::StorageDecode));
}

#[test]
fn swap_requests() {
    let d = configured();
    assert_eq!(
        d.swap_tokens_to_wegld(b"MEX-1".to_vec(), n(10), addr(8)),
        SwapTokensCall { to: addr(8), token_out: b"WEGLD-1".to_vec(), amount_out_min: n(1), payment: payment("MEX-1", 0, 10) }
    );
    assert_eq!(
        d.swap_wegld_to_native_tokens(b"SUPER-1", n(7)),
        Ok(SwapTokensCall { to: addr(2), token_out: b"SUPER-1".to_vec(), amount_out_min: n(1), payment: payment("WEGLD-1", 0, 7) })
    );
    assert_eq!(
        d.swap_wegld_to_stable_tokens(n(9)),
        Ok(SwapTokensCall { to: addr(4), token_out: b"USDC-1".to_vec(), amount_out_min: n(1), payment: payment("WEGLD-1", 0, 9) })
    );
    assert_eq!(DexSettings::new().swap_wegld_to_stable_tokens(n(9)), Err(ManagerError::StorageDecode));
    assert_eq!(DexSettings::new().swap_wegld_to_native_tokens(b"SUPER-1", n(9)), Err(ManagerError::StorageDecode));
}

#[test]
fn swap_output_must_be_the_asked_token() {
    assert_eq!(DexSettings::new().check_swap_output(b"USDC-1", payment("USDC-1", 0, 5)), Ok(payment("USDC-1", 0, 5)));
    let r = DexSettings::new().check_swap_output(b"USDC-1", payment("WEGLD-1", 0, 5));
    assert_eq!(r, Err(ManagerError::SwappedInvalidCostToken));
    assert_eq!(r.unwrap_err().message(), "swapped invalid cost token");
}

#[test]
fn proxies_build_calls_to_their_contract() {
    let p = ContractProxy { to: addr(6) };
    assert_eq!(p.wrap_egld(n(3)), WrapEgldCall { to: addr(6), egld_value: n(3) });
    assert_eq!(
        p.swap_tokens_fixed_input(b"WEGLD-1".to_vec(), n(1), payment("MEX-1", 0, 4)),
        SwapTokensCall { to: addr(6), token_out: b"WEGLD-1".to_vec(), amount_out_min: n(1), payment: payment("MEX-1", 0, 4) }
    );
}
