//! Laws of the proxy minter, stated over the registry `self@` and the spec
//! functions that the contracts of [`MinstaProxyMinter`] use.

use vstd::prelude::*;
use crate::account::AccountId;
use crate::minter::{beneficial_owner, reconciled, registry_after, MinstaProxyMinter};
use crate::registry::latest_minter;

verus! {

/// The first mint on a service credits the caller: where no minter is on record
/// for the service, the beneficial owner is the calling account.
pub proof fn law_first_mint_credits_caller(
    registry: Map<Seq<char>, Seq<char>>,
    nft_contract_id: Seq<char>,
    caller: Seq<char>,
)
    requires
        !registry.contains_key(nft_contract_id),
    ensures
        beneficial_owner(registry, nft_contract_id, caller) == caller,
{
}

/// The query is idempotent: asked twice for the same service, with no
/// reconciliation in between, the proxy gives the same answer. `first` and
/// `second` are any two answers that [`MinstaProxyMinter::get_latest_minter`]
/// may give, on two states of the proxy with the same registry.
pub proof fn law_query_is_idempotent(
    earlier: MinstaProxyMinter,
    later: MinstaProxyMinter,
    nft_contract_id: AccountId,
    first: Option<AccountId>,
    second: Option<AccountId>,
)
    requires
        earlier@ == later@,
        call_ensures(MinstaProxyMinter::get_latest_minter, (&earlier, nft_contract_id), first),
        call_ensures(MinstaProxyMinter::get_latest_minter, (&later, nft_contract_id), second),
    ensures
        first.deep_view() == second.deep_view(),
{
}

/// A reconciled mint puts its minter on record: the query then answers with
/// that minter, and the next mint on the service credits that minter, whoever
/// calls.
pub proof fn law_reconciled_minter_is_on_record(
    registry: Map<Seq<char>, Seq<char>>,
    latest_minter_id: Seq<char>,
    nft_contract_id: Seq<char>,
    promise_results_count: u64,
    next_caller: Seq<char>,
)
    requires
        reconciled(promise_results_count),
    ensures
        ({
            let after = registry_after(
                registry,
                latest_minter_id,
                nft_contract_id,
                promise_results_count,
            );
            &&& latest_minter(after, nft_contract_id) == Some(latest_minter_id)
            &&& beneficial_owner(after, nft_contract_id, next_caller) == latest_minter_id
        }),
{
}

/// A mint that is not reconciled leaves no trace: the registry is as it was
/// before, so every query and every later mint goes as if the mint had never
/// been asked for.
pub proof fn law_unreconciled_mint_leaves_no_trace(
    registry: Map<Seq<char>, Seq<char>>,
    latest_minter_id: Seq<char>,
    nft_contract_id: Seq<char>,
    promise_results_count: u64,
)
    requires
        !reconciled(promise_results_count),
    ensures
        registry_after(registry, latest_minter_id, nft_contract_id, promise_results_count)
            == registry,
{
}

/// Reconciliation touches one service only: what is on record for any other
/// service stays on record.
pub proof fn law_reconciliation_is_per_service(
    registry: Map<Seq<char>, Seq<char>>,
    latest_minter_id: Seq<char>,
    nft_contract_id: Seq<char>,
    promise_results_count: u64,
    other_contract_id: Seq<char>,
)
    requires
        other_contract_id != nft_contract_id,
    ensures
        latest_minter(
            registry_after(registry, latest_minter_id, nft_contract_id, promise_results_count),
            other_contract_id,
        ) == latest_minter(registry, other_contract_id),
{
}

/// The last write wins: of two mints on one service that are both reconciled,
/// the registry keeps the minter of the one reconciled last, in whatever order
/// the two were asked for.
pub proof fn law_last_reconciliation_wins(
    registry: Map<Seq<char>, Seq<char>>,
    first_minter_id: Seq<char>,
    second_minter_id: Seq<char>,
    nft_contract_id: Seq<char>,
    first_count: u64,
    second_count: u64,
)
    requires
        reconciled(second_count),
    ensures
        registry_after(
            registry_after(registry, first_minter_id, nft_contract_id, first_count),
            second_minter_id,
            nft_contract_id,
            second_count,
        ) == registry_after(registry, second_minter_id, nft_contract_id, second_count),
{
}

} // verus!
