use vstd::prelude::*;

use crate::factory::{
    create_entity_outcome, upgrade_entity_outcome, DeployRequest, CODE_METADATA_PAYABLE,
    CODE_METADATA_PAYABLE_BY_SC, CODE_METADATA_READABLE, CODE_METADATA_UPGRADEABLE,
};
use crate::bignat::BigNat;
use crate::events::ManagerEvent;
use crate::manager::{ManagerAction, ManagerError, ManagerStorage};
use crate::types::{Address, TokenId};
use crate::vote::{tallied, tally_step, Proposal, VoteType};

verus! {

/// Registering an entity for a token (as `create_entity_deployed` does)
/// makes `get_entity_address` give back that entity for the token, and
/// leaves what it gives for every other token unchanged.
pub proof fn law_entity_registry_read_after_write(
    before: ManagerStorage,
    after: ManagerStorage,
    token_id: Seq<u8>,
    entity: Address,
    other: Seq<u8>,
)
    requires
        after.entities_view() == before.entities_view().insert(token_id, entity),
        other != token_id,
    ensures
        after.entities_view().dom().contains(token_id),
        after.entities_view()[token_id] == entity,
        after.entities_view().dom().contains(other) == before.entities_view().dom().contains(other),
        before.entities_view().dom().contains(other) ==> after.entities_view()[other]
            == before.entities_view()[other],
{
}

/// `init` never overwrites a stored setting: on a Manager whose template,
/// cost token and creation cost are all stored, it changes nothing.
pub proof fn law_init_keeps_stored_settings(
    m: ManagerStorage,
    entity_template_address: Address,
    cost_token: TokenId,
    cost_entity_creation: BigNat,
)
    requires
        m.entity_templ_address is Some,
        m.cost_token_id@.len() > 0,
        m.cost_creation_amount@ > 0,
    ensures
        m.init_result(entity_template_address, cost_token, cost_entity_creation) == m,
{
}

/// `init` treats each setting on its own: a stored template address, a
/// stored (non-empty) cost token and a stored (positive) creation cost are
/// each kept, whatever the other settings hold, and each one that is not
/// stored yet takes the given value. Nothing else changes.
pub proof fn law_init_sets_each_setting_only_if_empty(
    m: ManagerStorage,
    entity_template_address: Address,
    cost_token: TokenId,
    cost_entity_creation: BigNat,
)
    ensures
        ({
            let after = m.init_result(entity_template_address, cost_token, cost_entity_creation);
            &&& m.entity_templ_address is Some ==> after.entity_templ_address == m.entity_templ_address
            &&& m.entity_templ_address is None ==> after.entity_templ_address == Some(entity_template_address)
            &&& m.cost_token_id@.len() > 0 ==> after.cost_token_id@ == m.cost_token_id@
            &&& m.cost_token_id@.len() == 0 ==> after.cost_token_id@ == cost_token@
            &&& m.cost_creation_amount@ > 0 ==> after.cost_creation_amount@ == m.cost_creation_amount@
            &&& m.cost_creation_amount@ == 0 ==> after.cost_creation_amount@ == cost_entity_creation@
            &&& after.trusted_host_address == m.trusted_host_address
            &&& after.native_token == m.native_token
            &&& after.dex == m.dex
            &&& after.entities == m.entities
            &&& after.setup == m.setup
        }),
{
}

/// Once a template address is stored, no later `init` (an upgrade) replaces
/// it, whatever cost token and creation cost are stored or given.
pub proof fn law_init_never_replaces_the_template(
    m: ManagerStorage,
    entity_template_address: Address,
    cost_token: TokenId,
    cost_entity_creation: BigNat,
)
    requires
        m.entity_templ_address is Some,
    ensures
        m.init_result(entity_template_address, cost_token, cost_entity_creation).entity_templ_address
            == m.entity_templ_address,
{
}

/// Deploying an entity hands on, unchanged and with no bound, the number of
/// initial tokens it is asked for, with the token and the leader; with the
/// trusted host and template stored it always succeeds, and without either
/// it is refused.
pub proof fn law_deploy_hands_on_whole_supply(
    trusted_host: Option<Address>,
    template: Option<Address>,
    token_id: Seq<u8>,
    initial_tokens: nat,
    leader: Address,
    r: Result<DeployRequest, ManagerError>,
)
    requires
        create_entity_outcome(trusted_host, template, token_id, initial_tokens, leader, r),
    ensures
        r is Ok <==> (trusted_host is Some && template is Some),
        trusted_host is None ==> r == Err::<DeployRequest, ManagerError>(ManagerError::TrustedHostNotConfigured),
        r matches Ok(request) ==> {
            &&& request.initial_tokens@ == initial_tokens
            &&& request.token_id@ == token_id
            &&& request.leader == leader
            &&& request.template == template.unwrap()
            &&& request.trusted_host == trusted_host.unwrap()
        },
{
}

/// Upgrading an entity asks for exactly one upgrade, of the given entity
/// with the given gas, to the stored template with the stored trusted host,
/// then announces it; without a trusted host it is refused.
pub proof fn law_upgrade_targets_the_given_entity(
    trusted_host: Option<Address>,
    template: Option<Address>,
    address: Address,
    gas: u64,
    r: Result<Vec<ManagerAction>, ManagerError>,
)
    requires
        upgrade_entity_outcome(trusted_host, template, address, gas, r),
    ensures
        r is Ok <==> (trusted_host is Some && template is Some),
        trusted_host is None ==> r == Err::<Vec<ManagerAction>, ManagerError>(
            ManagerError::TrustedHostNotConfigured),
        r matches Ok(actions) ==> {
            &&& actions@.len() == 2
            &&& actions@[0] matches ManagerAction::UpgradeEntity { address: a, gas: g, template: t, code_metadata, trusted_host: h }
            &&& a == address
            &&& g == gas
            &&& t == template.unwrap()
            &&& h == trusted_host.unwrap()
            &&& code_metadata == 0x0506
            &&& actions@[1] == ManagerAction::Emit(ManagerEvent::EntityUpgraded { entity: address })
        },
{
}

/// A second `init` changes nothing once the first has stored a non-empty
/// cost token and a positive cost (or they were stored before).
pub proof fn law_init_is_idempotent(
    m: ManagerStorage,
    template_a: Address,
    cost_token_a: TokenId,
    cost_a: BigNat,
    template_b: Address,
    cost_token_b: TokenId,
    cost_b: BigNat,
)
    requires
        m.cost_token_id@.len() > 0 || cost_token_a@.len() > 0,
        m.cost_creation_amount@ > 0 || cost_a@ > 0,
    ensures
        m.init_result(template_a, cost_token_a, cost_a).init_result(template_b, cost_token_b, cost_b)
            == m.init_result(template_a, cost_token_a, cost_a),
{
}

/// Once an owner's setup is cleared (as `finalize_entity_endpoint` does),
/// the owner sets up no token and no supply, so the owner is no longer the
/// setup owner of any non-empty token id.
pub proof fn law_finalize_ends_setup(before: ManagerStorage, after: ManagerStorage, owner: Seq<u8>, token_id: Seq<u8>)
    requires
        after.setup_view() == before.setup_view().remove(owner),
        token_id.len() > 0,
    ensures
        after.setup_token_of(owner).len() == 0,
        after.setup_amount_of(owner) == 0,
        after.setup_token_of(owner) != token_id,
{
}

/// A recorded setup (as `register_entity_token_endpoint` and an issued
/// token's callback make) is what the setup getters read back, and the
/// setups of other owners are unchanged.
pub proof fn law_setup_read_after_write(
    before: ManagerStorage,
    after: ManagerStorage,
    owner: Seq<u8>,
    token_id: Seq<u8>,
    amount: nat,
    other: Seq<u8>,
)
    requires
        after.setup_set_to(&before, owner, token_id, amount),
        other != owner,
    ensures
        after.setup_token_of(owner) == token_id,
        after.setup_amount_of(owner) == amount,
        after.setup_token_of(other) == before.setup_token_of(other),
        after.setup_amount_of(other) == before.setup_amount_of(other),
{
    assert(after.setup_view().dom().contains(other) == before.setup_view().dom().contains(other));
}

/// A counted vote adds exactly its weight to the proposal's total, and no
/// tally ever decreases.
pub proof fn law_vote_adds_its_weight(before: Proposal, after: Proposal, vote_type: VoteType, weight: nat)
    requires
        tallied(before, after, vote_type, weight),
    ensures
        tally_step(before, after, weight),
{
}

/// The sum of a sequence of weights.
pub open spec fn total_weight(weights: Seq<nat>) -> nat
    decreases weights.len(),
{
    if weights.len() == 0 {
        0
    } else {
        total_weight(weights.drop_last()) + weights.last()
    }
}

/// Over any sequence of vote calls on a proposal, successful or refused
/// (each one a step as `vote` ensures, counting 0 when refused), no tally
/// ever decreases and the total of the tallies grows by exactly the sum of
/// the weights that were counted.
pub proof fn law_votes_over_a_sequence(states: Seq<Proposal>, counted: Seq<nat>)
    requires
        states.len() == counted.len() + 1,
        forall|i: int| 0 <= i < counted.len() ==> #[trigger] tally_step(states[i], states[i + 1], counted[i]),
    ensures
        states.last().id == states[0].id,
        states.last().votes_for@ >= states[0].votes_for@,
        states.last().votes_against@ >= states[0].votes_against@,
        states.last().votes_for@ + states.last().votes_against@ == states[0].votes_for@
            + states[0].votes_against@ + total_weight(counted),
    decreases counted.len(),
{
    if counted.len() > 0 {
        let n = counted.len() as int;
        let prefix = states.drop_last();
        let prefix_counted = counted.drop_last();
        assert forall|i: int| 0 <= i < prefix_counted.len() implies #[trigger] tally_step(
            prefix[i],
            prefix[i + 1],
            prefix_counted[i],
        ) by {
            assert(tally_step(states[i], states[i + 1], counted[i]));
        }
        law_votes_over_a_sequence(prefix, prefix_counted);
        assert(tally_step(states[n - 1], states[n], counted[n - 1]));
        assert(prefix.last() == states[n - 1]);
    }
}

/// The code metadata of deployed entities has exactly the upgradeable,
/// readable, payable and payable-by-contract flags set.
pub proof fn law_deploy_code_metadata_flags()
    ensures
        0x0506u16 & CODE_METADATA_UPGRADEABLE != 0,
        0x0506u16 & CODE_METADATA_READABLE != 0,
        0x0506u16 & CODE_METADATA_PAYABLE != 0,
        0x0506u16 & CODE_METADATA_PAYABLE_BY_SC != 0,
        0x0506u16 & !(CODE_METADATA_UPGRADEABLE | CODE_METADATA_READABLE | CODE_METADATA_PAYABLE
            | CODE_METADATA_PAYABLE_BY_SC) == 0,
{
    assert(0x0506u16 & 0x0100u16 != 0) by (bit_vector);
    assert(0x0506u16 & 0x0400u16 != 0) by (bit_vector);
    assert(0x0506u16 & 0x0002u16 != 0) by (bit_vector);
    assert(0x0506u16 & 0x0004u16 != 0) by (bit_vector);
    assert(0x0506u16 & !(0x0100u16 | 0x0400u16 | 0x0002u16 | 0x0004u16) == 0) by (bit_vector);
}

} // verus!
