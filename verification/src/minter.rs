//! The proxy minter: the mint orchestrator, the mint reconciler and the
//! registry query, over the registry of latest minters that the proxy owns.
//!
//! A mint runs in two phases. [`MinstaProxyMinter::mint`] accepts the request
//! and describes the remote call to issue; it records nothing. Once the remote
//! call has settled, [`MinstaProxyMinter::cb_mint`] decides whether the minter
//! goes on record. The proxy itself performs no remote call and reads nothing
//! from its environment: the account that calls, the proxy's own account and the
//! number of results attached to the callback are handed to it.

use vstd::prelude::*;
use crate::account::AccountId;
use crate::metadata::Metadata;
use crate::registry::{latest_minter, LatestMinters};
use crate::request::{mint_request, MintContext, MintRequest};

verus! {

/// Why a mint did not go through.
#[derive(Debug, Clone, Copy, PartialEq, Eq)]
pub enum MintError {
    /// The metadata payload was not a well-formed record. Nothing was recorded
    /// and no remote call was described; the caller may ask again with a
    /// corrected payload.
    InvalidMetadata,
    /// The remote mint did not present exactly one result when it was
    /// reconciled. The registry is as it was; nothing is retried.
    UnreconciledMint,
}

/// The account credited as owner of a new mint on `nft_contract_id`: the minter
/// on record for that service, or `caller` when none is on record.
pub open spec fn beneficial_owner(
    registry: Map<Seq<char>, Seq<char>>,
    nft_contract_id: Seq<char>,
    caller: Seq<char>,
) -> Seq<char> {
    match latest_minter(registry, nft_contract_id) {
        Some(minter_id) => minter_id,
        None => caller,
    }
}

/// Whether a settled mint is judged to have completed. Only the number of
/// results attached to the callback counts, not what the one result says.
pub open spec fn reconciled(promise_results_count: u64) -> bool {
    promise_results_count == 1
}

/// The registry after the reconciliation of a mint by `latest_minter_id` on
/// `nft_contract_id` to which `promise_results_count` results were attached.
pub open spec fn registry_after(
    registry: Map<Seq<char>, Seq<char>>,
    latest_minter_id: Seq<char>,
    nft_contract_id: Seq<char>,
    promise_results_count: u64,
) -> Map<Seq<char>, Seq<char>> {
    if reconciled(promise_results_count) {
        registry.insert(nft_contract_id, latest_minter_id)
    } else {
        registry
    }
}

/// The proxy minter. Its value `self@` is its registry: the mapping from each
/// target service to the minter on record for it.
pub struct MinstaProxyMinter {
    latest_minters: LatestMinters,
}

impl View for MinstaProxyMinter {
    type V = Map<Seq<char>, Seq<char>>;

    closed spec fn view(&self) -> Map<Seq<char>, Seq<char>> {
        self.latest_minters@
    }
}

impl Default for MinstaProxyMinter {
    /// A proxy with no minter on record for any service.
    fn default() -> (minter: Self)
        ensures
            minter@ == Map::<Seq<char>, Seq<char>>::empty(),
    {
        MinstaProxyMinter { latest_minters: LatestMinters::new() }
    }
}

impl MinstaProxyMinter {
    /// A proxy over the registry `latest_minters`, which it owns from now on.
    pub fn new(latest_minters: LatestMinters) -> (minter: Self)
        ensures
            minter@ == latest_minters@,
    {
        MinstaProxyMinter { latest_minters }
    }

    /// The mint orchestrator. `metadata` is what reading the caller's payload
    /// gave: the record, or `None` where the payload was not a well-formed
    /// record. `predecessor_account_id` is the account that calls, and
    /// `current_account_id` the proxy's own account.
    ///
    /// Without a record the mint is refused. With one, the result describes the
    /// remote batch mint on `nft_contract_id` and the callback chained to it.
    /// The owner of what is minted is the minter on record for the service, or
    /// the caller on the first mint for it. The royalty goes to the caller
    /// either way. The registry is never changed here.
    pub fn mint(
        &mut self,
        metadata: Option<Metadata>,
        nft_contract_id: AccountId,
        predecessor_account_id: AccountId,
        current_account_id: AccountId,
    ) -> (result: Result<MintRequest, MintError>)
        ensures
            final(self)@ == old(self)@,
            metadata is None ==> result == Err::<MintRequest, MintError>(
                MintError::InvalidMetadata,
            ),
            metadata is Some ==> result is Ok && result->Ok_0@ == mint_request(
                beneficial_owner(old(self)@, nft_contract_id@, predecessor_account_id@),
                metadata->0@,
                predecessor_account_id@,
                nft_contract_id@,
                current_account_id@,
            ),
            metadata is Some && !old(self)@.contains_key(nft_contract_id@)
                ==> result->Ok_0.mint.args.owner_id@ == predecessor_account_id@,
    {
        match metadata {
            Some(parsed) => {
                let owner_id = match self.latest_minters.get(&nft_contract_id) {
                    Some(minter_id) => minter_id,
                    None => predecessor_account_id.clone(),
                };
                Ok(
                    MintRequest::new(
                        owner_id,
                        parsed,
                        predecessor_account_id,
                        nft_contract_id,
                        current_account_id,
                    ),
                )
            },
            None => Err(MintError::InvalidMetadata),
        }
    }

    /// Reconciles the mint in flight that `context` describes, once the remote
    /// call has settled with `promise_results_count` results attached.
    ///
    /// With exactly one result the minter goes on record for the service, in
    /// place of whoever was on record. With any other number the registry is
    /// left as it is.
    pub fn reconcile(&mut self, context: MintContext, promise_results_count: u64) -> (result:
        Result<(), MintError>)
        ensures
            final(self)@ == registry_after(
                old(self)@,
                context.latest_minter_id@,
                context.nft_contract_id@,
                promise_results_count,
            ),
            reconciled(promise_results_count) ==> result is Ok,
            !reconciled(promise_results_count) ==> result == Err::<(), MintError>(
                MintError::UnreconciledMint,
            ),
    {
        if promise_results_count == 1 {
            self.latest_minters.insert(context.nft_contract_id, context.latest_minter_id);
            Ok(())
        } else {
            Err(MintError::UnreconciledMint)
        }
    }

    /// The mint reconciler, as the callback sees it. Returns whether
    /// `latest_minter_id` went on record for `nft_contract_id`, which it does
    /// exactly when one result is attached.
    pub fn cb_mint(
        &mut self,
        latest_minter_id: AccountId,
        nft_contract_id: AccountId,
        promise_results_count: u64,
    ) -> (committed: bool)
        ensures
            committed == reconciled(promise_results_count),
            final(self)@ == registry_after(
                old(self)@,
                latest_minter_id@,
                nft_contract_id@,
                promise_results_count,
            ),
            promise_results_count == 1 ==> committed && latest_minter(
                final(self)@,
                nft_contract_id@,
            ) == Some(latest_minter_id@),
            promise_results_count != 1 ==> !committed && final(self)@ == old(self)@,
    {
        let context = MintContext { latest_minter_id, nft_contract_id };
        match self.reconcile(context, promise_results_count) {
            Ok(_) => true,
            Err(_) => false,
        }
    }

    /// The registry query: the minter on record for `nft_contract_id`, or
    /// `None` when there is none.
    pub fn get_latest_minter(&self, nft_contract_id: AccountId) -> (minter: Option<AccountId>)
        ensures
            minter.deep_view() == latest_minter(self@, nft_contract_id@),
    {
        self.latest_minters.get(&nft_contract_id)
    }
}

} // verus!
