use vstd::prelude::*;

use crate::bignat::BigNat;
use crate::manager::ManagerError;
use crate::types::{address_eq, bytes_eq, copy_bytes, Address, TokenId, TokenPayment};

verus! {

/// A call of `wrapEgld` on the wrapping contract `to`, paying `egld_value` EGLD.
#[derive(Clone, Debug, PartialEq, Eq)]
pub struct WrapEgldCall {
    pub to: Address,
    pub egld_value: BigNat,
}

/// A call of `swapTokensFixedInput` on the pair contract `to`, paying
/// `payment` and asking for at least `amount_out_min` of `token_out`.
#[derive(Clone, Debug, PartialEq, Eq)]
pub struct SwapTokensCall {
    pub to: Address,
    pub token_out: TokenId,
    pub amount_out_min: BigNat,
    pub payment: TokenPayment,
}

/// A handle on another contract, through which calls to it are built.
#[derive(Clone, Copy, Debug, PartialEq, Eq)]
pub struct ContractProxy {
    pub to: Address,
}

/// The endpoint of a DEX pair contract.
pub trait DexRouterContractProxy {
    /// The contract the calls go to.
    spec fn target(&self) -> Address;

    /// Swaps `payment` for at least `amount_out_min` of `token_out`.
    fn swap_tokens_fixed_input(&self, token_out: TokenId, amount_out_min: BigNat, payment: TokenPayment) -> (r:
        SwapTokensCall)
        ensures
            r == (SwapTokensCall { to: self.target(), token_out, amount_out_min, payment }),
    ;
}

/// The endpoint of the EGLD wrapping contract.
pub trait DexWrapContractProxy {
    /// The contract the calls go to.
    spec fn wrap_target(&self) -> Address;

    /// Wraps the `egld_value` EGLD paid.
    fn wrap_egld(&self, egld_value: BigNat) -> (r: WrapEgldCall)
        ensures
            r == (WrapEgldCall { to: self.wrap_target(), egld_value }),
    ;
}

impl DexRouterContractProxy for ContractProxy {
    open spec fn target(&self) -> Address {
        self.to
    }

    fn swap_tokens_fixed_input(&self, token_out: TokenId, amount_out_min: BigNat, payment: TokenPayment) -> (r:
        SwapTokensCall) {
        SwapTokensCall { to: self.to, token_out, amount_out_min, payment }
    }
}

impl DexWrapContractProxy for ContractProxy {
    open spec fn wrap_target(&self) -> Address {
        self.to
    }

    fn wrap_egld(&self, egld_value: BigNat) -> (r: WrapEgldCall) {
        WrapEgldCall { to: self.to, egld_value }
    }
}

/// The DEX settings of the Manager.
#[derive(Clone, Debug, PartialEq, Eq)]
pub struct DexSettings {
    pub wegld_token: TokenId,
    pub native_token_pair_contract: Option<Address>,
    pub wrap_egld_contract: Option<Address>,
    pub stable_token: TokenId,
    pub stable_token_pair_contract: Option<Address>,
}

impl DexSettings {
    /// Nothing is stored.
    pub open spec fn is_unset(&self) -> bool {
        &&& self.wegld_token@.len() == 0
        &&& self.native_token_pair_contract is None
        &&& self.wrap_egld_contract is None
        &&& self.stable_token@.len() == 0
        &&& self.stable_token_pair_contract is None
    }

    /// Settings with nothing stored.
    pub fn new() -> (r: DexSettings)
        ensures
            r.is_unset(),
    {
        DexSettings {
            wegld_token: Vec::new(),
            native_token_pair_contract: None,
            wrap_egld_contract: None,
            stable_token: Vec::new(),
            stable_token_pair_contract: None,
        }
    }
}

/// Swapping and wrapping through the DEX. A contract address that is read
/// while not stored makes the call fail with a storage decode error.
pub trait DexModule {
    /// The stored DEX settings.
    spec fn settings(&self) -> DexSettings;

    /// Stores the DEX settings; only the contract's owner may.
    fn init_dex_module(
        &mut self,
        caller: Address,
        owner: Address,
        wegld_token: TokenId,
        native_token_pair_contract: Address,
        wrap_egld_contract: Address,
        stable_token: TokenId,
        stable_token_pair_contract: Address,
    ) -> (r: Result<(), ManagerError>)
        ensures
            caller@ != owner@ ==> r == Err::<(), ManagerError>(ManagerError::OnlyOwner) && final(self).settings()
                == old(self).settings(),
            caller@ == owner@ ==> r == Ok::<(), ManagerError>(()) && final(self).settings() == (DexSettings {
                wegld_token: wegld_token,
                native_token_pair_contract: Some(native_token_pair_contract),
                wrap_egld_contract: Some(wrap_egld_contract),
                stable_token: stable_token,
                stable_token_pair_contract: Some(stable_token_pair_contract),
            }),
    ;

    /// Wraps `amount` EGLD: the call to make on the wrapping contract and
    /// the WEGLD payment it yields.
    fn wrap_egld(&self, amount: BigNat) -> (r: Result<(WrapEgldCall, TokenPayment), ManagerError>)
        ensures
            self.settings().wrap_egld_contract is None ==> r == Err::<(WrapEgldCall, TokenPayment), ManagerError>(
                ManagerError::StorageDecode),
            self.settings().wrap_egld_contract is Some ==> {
                &&& r matches Ok((call, payment))
                &&& call.to == self.settings().wrap_egld_contract.unwrap()
                &&& call.egld_value@ == amount@
                &&& payment.token_id@ == self.settings().wegld_token@
                &&& payment.nonce == 0
                &&& payment.amount == amount
            },
    ;

    /// The swap of `payment_amount` of `payment_token` into WEGLD on
    /// `swap_contract`; what the swap yields is its result.
    fn swap_tokens_to_wegld(&self, payment_token: TokenId, payment_amount: BigNat, swap_contract: Address) -> (r:
        SwapTokensCall)
        ensures
            r.to == swap_contract,
            r.token_out@ == self.settings().wegld_token@,
            r.amount_out_min@ == 1,
            r.payment == (TokenPayment { token_id: payment_token, nonce: 0, amount: payment_amount }),
    ;

    /// The swap of `amount` WEGLD into `native_token` on the native pair
    /// contract; its output then goes through `check_swap_output`.
    fn swap_wegld_to_native_tokens(&self, native_token: &[u8], amount: BigNat) -> (r: Result<
        SwapTokensCall,
        ManagerError,
    >)
        ensures
            self.settings().native_token_pair_contract is None ==> r == Err::<SwapTokensCall, ManagerError>(
                ManagerError::StorageDecode),
            self.settings().native_token_pair_contract is Some ==> {
                &&& r matches Ok(call)
                &&& call.to == self.settings().native_token_pair_contract.unwrap()
                &&& call.token_out@ == native_token@
                &&& call.amount_out_min@ == 1
                &&& call.payment.token_id@ == self.settings().wegld_token@
                &&& call.payment.nonce == 0
                &&& call.payment.amount == amount
            },
    ;

    /// The swap of `amount` WEGLD into the stable token on the stable pair
    /// contract; its output then goes through `check_swap_output`.
    fn swap_wegld_to_stable_tokens(&self, amount: BigNat) -> (r: Result<SwapTokensCall, ManagerError>)
        ensures
            self.settings().stable_token_pair_contract is None ==> r == Err::<SwapTokensCall, ManagerError>(
                ManagerError::StorageDecode),
            self.settings().stable_token_pair_contract is Some ==> {
                &&& r matches Ok(call)
                &&& call.to == self.settings().stable_token_pair_contract.unwrap()
                &&& call.token_out@ == self.settings().stable_token@
                &&& call.amount_out_min@ == 1
                &&& call.payment.token_id@ == self.settings().wegld_token@
                &&& call.payment.nonce == 0
                &&& call.payment.amount == amount
            },
    ;

    /// Accepts the output of a swap only in the token that was asked for.
    fn check_swap_output(&self, expected_token: &[u8], output: TokenPayment) -> (r: Result<TokenPayment, ManagerError>)
        ensures
            output.token_id@ == expected_token@ ==> r == Ok::<TokenPayment, ManagerError>(output),
            output.token_id@ != expected_token@ ==> r == Err::<TokenPayment, ManagerError>(
                ManagerError::SwappedInvalidCostToken),
    ;
}

impl DexModule for DexSettings {
    open spec fn settings(&self) -> DexSettings {
        *self
    }

    fn init_dex_module(
        &mut self,
        caller: Address,
        owner: Address,
        wegld_token: TokenId,
        native_token_pair_contract: Address,
        wrap_egld_contract: Address,
        stable_token: TokenId,
        stable_token_pair_contract: Address,
    ) -> (r: Result<(), ManagerError>) {
        if !address_eq(&caller, &owner) {
            return Err(ManagerError::OnlyOwner);
        }
        self.wegld_token = wegld_token;
        self.native_token_pair_contract = Some(native_token_pair_contract);
        self.wrap_egld_contract = Some(wrap_egld_contract);
        self.stable_token = stable_token;
        self.stable_token_pair_contract = Some(stable_token_pair_contract);
        Ok(())
    }

    fn wrap_egld(&self, amount: BigNat) -> (r: Result<(WrapEgldCall, TokenPayment), ManagerError>) {
        let wegld_token_id = copy_bytes(self.wegld_token.as_slice());
        let wrap_egld_contract = match self.wrap_egld_contract {
            Some(a) => a,
            None => return Err(ManagerError::StorageDecode),
        };
        let call = ContractProxy { to: wrap_egld_contract }.wrap_egld(amount.copy());
        Ok((call, TokenPayment { token_id: wegld_token_id, nonce: 0, amount }))
    }

    fn swap_tokens_to_wegld(&self, payment_token: TokenId, payment_amount: BigNat, swap_contract: Address) -> (r:
        SwapTokensCall) {
        let wegld_token_id = copy_bytes(self.wegld_token.as_slice());
        ContractProxy { to: swap_contract }.swap_tokens_fixed_input(
            wegld_token_id,
            BigNat::from_u128(1),
            TokenPayment { token_id: payment_token, nonce: 0, amount: payment_amount },
        )
    }

    fn swap_wegld_to_native_tokens(&self, native_token: &[u8], amount: BigNat) -> (r: Result<
        SwapTokensCall,
        ManagerError,
    >) {
        let cost_token_id = copy_bytes(native_token);
        let wegld_token_id = copy_bytes(self.wegld_token.as_slice());
        let pair = match self.native_token_pair_contract {
            Some(a) => a,
            None => return Err(ManagerError::StorageDecode),
        };
        Ok(
            ContractProxy { to: pair }.swap_tokens_fixed_input(
                cost_token_id,
                BigNat::from_u128(1),
                TokenPayment { token_id: wegld_token_id, nonce: 0, amount },
            ),
        )
    }

    fn swap_wegld_to_stable_tokens(&self, amount: BigNat) -> (r: Result<SwapTokensCall, ManagerError>) {
        let wegld_token_id = copy_bytes(self.wegld_token.as_slice());
        let stable_token_id = copy_bytes(self.stable_token.as_slice());
        let pair = match self.stable_token_pair_contract {
            Some(a) => a,
            None => return Err(ManagerError::StorageDecode),
        };
        Ok(
            ContractProxy { to: pair }.swap_tokens_fixed_input(
                stable_token_id,
                BigNat::from_u128(1),
                TokenPayment { token_id: wegld_token_id, nonce: 0, amount },
            ),
        )
    }

    fn check_swap_output(&self, expected_token: &[u8], output: TokenPayment) -> (r: Result<TokenPayment, ManagerError>) {
        if bytes_eq(output.token_id.as_slice(), expected_token) {
            Ok(output)
        } else {
            Err(ManagerError::SwappedInvalidCostToken)
        }
    }
}

} // verus!
