//! What the proxy asks of the outside world when a mint is accepted: a remote
//! batch mint on the target service, and a reconciliation callback on the proxy
//! itself that runs once the remote call has settled.
//!
//! The proxy only describes the two calls. Whoever drives the proxy issues them.

use vstd::prelude::*;
use crate::account::AccountId;
use crate::metadata::{Metadata, MetadataView};

verus! {

/// The method of the target service that mints a batch of collectibles.
pub const MINT_METHOD: &'static str = "nft_batch_mint";

/// The method of the proxy that reconciles a settled mint.
pub const CALLBACK_METHOD: &'static str = "cb_mint";

/// The computation budget of the remote batch mint, in units of gas.
pub const MINT_GAS: u64 = 100_000_000_000_000;

/// The computation budget of the reconciliation callback, in units of gas.
pub const CALLBACK_GAS: u64 = 50_000_000_000_000;

/// The value transferred with either call: none.
pub const NO_DEPOSIT: u128 = 0;

/// How many collectibles one request mints.
pub const NUM_TO_MINT: u64 = 1;

/// The whole of a royalty pool, in basis points.
pub const FULL_SHARE: u32 = 10000;

/// The royalty taken on secondary sales, in basis points of the sale: a tenth.
pub const ROYALTY_PERCENTAGE: u32 = 1000;

/// The share of a royalty pool that goes to one account.
#[derive(Debug, PartialEq, Eq)]
pub struct RoyaltyShare {
    /// The account that receives the share.
    pub account_id: AccountId,
    /// The size of the share, in basis points of the pool.
    pub basis_points: u32,
}

/// The mathematical value of a [`RoyaltyShare`].
pub struct RoyaltyShareView {
    pub account_id: Seq<char>,
    pub basis_points: nat,
}

impl View for RoyaltyShare {
    type V = RoyaltyShareView;

    open spec fn view(&self) -> RoyaltyShareView {
        RoyaltyShareView { account_id: self.account_id@, basis_points: self.basis_points as nat }
    }
}

/// The values of a list of shares, in order.
pub open spec fn shares_view(shares: Seq<RoyaltyShare>) -> Seq<RoyaltyShareView> {
    shares.map_values(|share: RoyaltyShare| share@)
}

/// A royalty: how the pool is split, and how large the pool is.
#[derive(Debug, PartialEq, Eq)]
pub struct RoyaltyArgs {
    /// The accounts that share the pool, each with its share.
    pub split_between: Vec<RoyaltyShare>,
    /// The size of the pool, in basis points of a sale.
    pub percentage: u32,
}

/// The mathematical value of a [`RoyaltyArgs`].
pub struct RoyaltyArgsView {
    pub split_between: Seq<RoyaltyShareView>,
    pub percentage: nat,
}

impl View for RoyaltyArgs {
    type V = RoyaltyArgsView;

    open spec fn view(&self) -> RoyaltyArgsView {
        RoyaltyArgsView {
            split_between: shares_view(self.split_between@),
            percentage: self.percentage as nat,
        }
    }
}

/// The royalty that every mint through the proxy carries: the whole pool goes
/// to the minting account, whoever the beneficial owner is, and the pool is a
/// tenth of each sale.
pub open spec fn minter_royalty(minter_id: Seq<char>) -> RoyaltyArgsView {
    RoyaltyArgsView {
        split_between: seq![
            RoyaltyShareView { account_id: minter_id, basis_points: FULL_SHARE as nat },
        ],
        percentage: ROYALTY_PERCENTAGE as nat,
    }
}

/// The arguments of the remote batch mint.
#[derive(Debug, PartialEq, Eq)]
pub struct BatchMintArgs {
    /// The account credited as owner of what is minted.
    pub owner_id: AccountId,
    /// The metadata of what is minted.
    pub metadata: Metadata,
    /// How many collectibles to mint.
    pub num_to_mint: u64,
    /// The royalty on what is minted.
    pub royalty_args: RoyaltyArgs,
    /// An override of how ownership is split. The proxy never gives one.
    pub split_owners: Option<Vec<RoyaltyShare>>,
}

/// The mathematical value of a [`BatchMintArgs`].
pub struct BatchMintArgsView {
    pub owner_id: Seq<char>,
    pub metadata: MetadataView,
    pub num_to_mint: nat,
    pub royalty_args: RoyaltyArgsView,
    pub split_owners: Option<Seq<RoyaltyShareView>>,
}

impl View for BatchMintArgs {
    type V = BatchMintArgsView;

    open spec fn view(&self) -> BatchMintArgsView {
        BatchMintArgsView {
            owner_id: self.owner_id@,
            metadata: self.metadata@,
            num_to_mint: self.num_to_mint as nat,
            royalty_args: self.royalty_args@,
            split_owners: match self.split_owners {
                Some(shares) => Some(shares_view(shares@)),
                None => None,
            },
        }
    }
}

/// What a mint in flight has to remember until it is reconciled: who asked for
/// it, and on which service. It travels as the arguments of the callback.
#[derive(Debug, PartialEq, Eq)]
pub struct MintContext {
    /// The account that asked for the mint.
    pub latest_minter_id: AccountId,
    /// The service the mint was sent to.
    pub nft_contract_id: AccountId,
}

/// The mathematical value of a [`MintContext`].
pub struct MintContextView {
    pub latest_minter_id: Seq<char>,
    pub nft_contract_id: Seq<char>,
}

impl View for MintContext {
    type V = MintContextView;

    open spec fn view(&self) -> MintContextView {
        MintContextView {
            latest_minter_id: self.latest_minter_id@,
            nft_contract_id: self.nft_contract_id@,
        }
    }
}

/// The remote batch mint: a call of [`MINT_METHOD`] on the target service.
#[derive(Debug, PartialEq, Eq)]
pub struct MintCall {
    /// The service that is called.
    pub receiver_id: AccountId,
    /// The method that is called.
    pub method_name: String,
    /// The arguments of the call.
    pub args: BatchMintArgs,
    /// The value transferred with the call.
    pub deposit: u128,
    /// The computation budget of the call.
    pub gas: u64,
}

/// The mathematical value of a [`MintCall`].
pub struct MintCallView {
    pub receiver_id: Seq<char>,
    pub method_name: Seq<char>,
    pub args: BatchMintArgsView,
    pub deposit: nat,
    pub gas: nat,
}

impl View for MintCall {
    type V = MintCallView;

    open spec fn view(&self) -> MintCallView {
        MintCallView {
            receiver_id: self.receiver_id@,
            method_name: self.method_name@,
            args: self.args@,
            deposit: self.deposit as nat,
            gas: self.gas as nat,
        }
    }
}

/// The reconciliation callback: a call of [`CALLBACK_METHOD`] on the proxy,
/// chained to the remote batch mint.
#[derive(Debug, PartialEq, Eq)]
pub struct CallbackCall {
    /// The account that is called: the proxy itself.
    pub receiver_id: AccountId,
    /// The method that is called.
    pub method_name: String,
    /// The arguments of the call.
    pub args: MintContext,
    /// The value transferred with the call.
    pub deposit: u128,
    /// The computation budget of the call.
    pub gas: u64,
}

/// The mathematical value of a [`CallbackCall`].
pub struct CallbackCallView {
    pub receiver_id: Seq<char>,
    pub method_name: Seq<char>,
    pub args: MintContextView,
    pub deposit: nat,
    pub gas: nat,
}

impl View for CallbackCall {
    type V = CallbackCallView;

    open spec fn view(&self) -> CallbackCallView {
        CallbackCallView {
            receiver_id: self.receiver_id@,
            method_name: self.method_name@,
            args: self.args@,
            deposit: self.deposit as nat,
            gas: self.gas as nat,
        }
    }
}

/// An accepted mint: the remote call to issue, and the callback to chain to it.
/// The caller of the proxy sees what the callback returns, not what the remote
/// call returns.
#[derive(Debug, PartialEq, Eq)]
pub struct MintRequest {
    /// The remote batch mint.
    pub mint: MintCall,
    /// The reconciliation that follows it.
    pub callback: CallbackCall,
}

/// The mathematical value of a [`MintRequest`].
pub struct MintRequestView {
    pub mint: MintCallView,
    pub callback: CallbackCallView,
}

impl View for MintRequest {
    type V = MintRequestView;

    open spec fn view(&self) -> MintRequestView {
        MintRequestView { mint: self.mint@, callback: self.callback@ }
    }
}

/// The request that a mint of `metadata` on `nft_contract_id` amounts to, when
/// `minter_id` asks the proxy `current_account_id` for it and `owner_id` is the
/// beneficial owner.
pub open spec fn mint_request(
    owner_id: Seq<char>,
    metadata: MetadataView,
    minter_id: Seq<char>,
    nft_contract_id: Seq<char>,
    current_account_id: Seq<char>,
) -> MintRequestView {
    MintRequestView {
        mint: MintCallView {
            receiver_id: nft_contract_id,
            method_name: MINT_METHOD@,
            args: BatchMintArgsView {
                owner_id,
                metadata,
                num_to_mint: NUM_TO_MINT as nat,
                royalty_args: minter_royalty(minter_id),
                split_owners: None,
            },
            deposit: NO_DEPOSIT as nat,
            gas: MINT_GAS as nat,
        },
        callback: CallbackCallView {
            receiver_id: current_account_id,
            method_name: CALLBACK_METHOD@,
            args: MintContextView { latest_minter_id: minter_id, nft_contract_id },
            deposit: NO_DEPOSIT as nat,
            gas: CALLBACK_GAS as nat,
        },
    }
}

impl RoyaltyArgs {
    /// The royalty that gives the whole pool to `minter_id`.
    pub fn for_minter(minter_id: AccountId) -> (royalty: Self)
        ensures
            royalty@ == minter_royalty(minter_id@),
    {
        let mut split_between: Vec<RoyaltyShare> = Vec::new();
        split_between.push(RoyaltyShare { account_id: minter_id, basis_points: FULL_SHARE });
        let royalty = RoyaltyArgs { split_between, percentage: ROYALTY_PERCENTAGE };
        assert(royalty@.split_between =~= minter_royalty(minter_id@).split_between);
        royalty
    }
}

impl MintRequest {
    /// Describes the mint of `metadata` on `nft_contract_id` that `minter_id`
    /// asks the proxy `current_account_id` for, with `owner_id` as the
    /// beneficial owner.
    pub fn new(
        owner_id: AccountId,
        metadata: Metadata,
        minter_id: AccountId,
        nft_contract_id: AccountId,
        current_account_id: AccountId,
    ) -> (request: Self)
        ensures
            request@ == mint_request(
                owner_id@,
                metadata@,
                minter_id@,
                nft_contract_id@,
                current_account_id@,
            ),
    {
        let args = BatchMintArgs {
            owner_id,
            metadata,
            num_to_mint: NUM_TO_MINT,
            royalty_args: RoyaltyArgs::for_minter(minter_id.clone()),
            split_owners: None,
        };
        let mint = MintCall {
            receiver_id: nft_contract_id.clone(),
            method_name: MINT_METHOD.to_owned(),
            args,
            deposit: NO_DEPOSIT,
            gas: MINT_GAS,
        };
        let callback = CallbackCall {
            receiver_id: current_account_id,
            method_name: CALLBACK_METHOD.to_owned(),
            args: MintContext { latest_minter_id: minter_id, nft_contract_id },
            deposit: NO_DEPOSIT,
            gas: CALLBACK_GAS,
        };
        MintRequest { mint, callback }
    }
}

} // verus!
