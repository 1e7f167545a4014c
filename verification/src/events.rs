use vstd::prelude::*;

use crate::bignat::BigNat;
use crate::types::Address;

verus! {

/// An event that the Manager emits.
#[derive(Clone, Debug, PartialEq, Eq)]
pub enum ManagerEvent {
    /// `entityCreated`: a new entity was deployed at `entity`.
    EntityCreated { entity: Address },
    /// `entityUpgraded`: the entity at `entity` was upgraded.
    EntityUpgraded { entity: Address },
    /// `boost`: `booster` boosted `entity` with `amount`, counted as `virtual_amount`.
    Boost { booster: Address, entity: Address, amount: BigNat, virtual_amount: BigNat, bonus_factor: u8 },
    /// `voucher_redeemed`: `caller` redeemed the voucher with `nonce`.
    VoucherRedeemed { caller: Address, nonce: u64 },
}

/// The events of the Manager, each built from its indexed fields.
pub trait EventsModule {
    /// The `entityCreated` event.
    fn entity_created_event(&self, entity: Address) -> (r: ManagerEvent)
        ensures
            r == (ManagerEvent::EntityCreated { entity }),
    ;

    /// The `entityUpgraded` event.
    fn entity_upgraded_event(&self, entity: Address) -> (r: ManagerEvent)
        ensures
            r == (ManagerEvent::EntityUpgraded { entity }),
    ;

    /// The `boost` event.
    fn boost_event(&self, booster: Address, entity: Address, amount: BigNat, virtual_amount: BigNat, bonus_factor: u8) -> (r:
        ManagerEvent)
        ensures
            r == (ManagerEvent::Boost { booster, entity, amount, virtual_amount, bonus_factor }),
    ;

    /// The `voucher_redeemed` event.
    fn voucher_redeemed_event(&self, caller: Address, nonce: u64) -> (r: ManagerEvent)
        ensures
            r == (ManagerEvent::VoucherRedeemed { caller, nonce }),
    ;
}

} // verus!
