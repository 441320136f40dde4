//! What an accepted mint asks for: the remote batch mint and its callback.

use minsta_proxy_minter::request::{
    CALLBACK_GAS, CALLBACK_METHOD, FULL_SHARE, MINT_GAS, MINT_METHOD, NO_DEPOSIT, NUM_TO_MINT,
    ROYALTY_PERCENTAGE,
};
use minsta_proxy_minter::{
    BatchMintArgs, CallbackCall, Metadata, MinstaProxyMinter, MintCall, MintContext, MintRequest,
    RoyaltyArgs, RoyaltyShare,
};

fn sample_metadata() -> Metadata {
    Metadata {
        title: Some("Sunrise".to_string()),
        description: Some("First light over the bay".to_string()),
        media: Some("https://example.org/sunrise.png".to_string()),
        media_hash: Some("c3VucmlzZQ==".to_string()),
        copies: Some(3),
        expires_at: Some(1_900_000_000_000),
        starts_at: Some(-1),
        extra: None,
        reference: Some("https://example.org/sunrise.json".to_string()),
        reference_hash: None,
    }
}

#[test]
fn policy_constants_have_their_values() {
    assert_eq!(MINT_METHOD, "nft_batch_mint");
    assert_eq!(CALLBACK_METHOD, "cb_mint");
    assert_eq!(MINT_GAS, 100_000_000_000_000);
    assert_eq!(CALLBACK_GAS, 50_000_000_000_000);
    assert_eq!(NO_DEPOSIT, 0);
    assert_eq!(NUM_TO_MINT, 1);
    assert_eq!(FULL_SHARE, 10000);
    assert_eq!(ROYALTY_PERCENTAGE, 1000);
}

#[test]
fn royalty_is_a_tenth_and_goes_whole_to_the_minter() {
    let royalty = RoyaltyArgs::for_minter("alice".to_string());
    assert_eq!(
        royalty,
        RoyaltyArgs {
            split_between: vec![RoyaltyShare { account_id: "alice".to_string(), basis_points: 10000 }],
            percentage: 1000,
        }
    );
    // 1000 of 10000 basis points is 10 percent.
    assert_eq!(royalty.percentage * 100 / FULL_SHARE, 10);
}

#[test]
fn request_describes_both_calls_in_full() {
    let request = MintRequest::new(
        "alice".to_string(),
        sample_metadata(),
        "bob".to_string(),
        "svc.A".to_string(),
        "proxy.near".to_string(),
    );
    let expected = MintRequest {
        mint: MintCall {
            receiver_id: "svc.A".to_string(),
            method_name: "nft_batch_mint".to_string(),
            args: BatchMintArgs {
                owner_id: "alice".to_string(),
                metadata: sample_metadata(),
                num_to_mint: 1,
                royalty_args: RoyaltyArgs {
                    split_between: vec![
                        RoyaltyShare { account_id: "bob".to_string(), basis_points: 10000 },
                    ],
                    percentage: 1000,
                },
                split_owners: None,
            },
            deposit: 0,
            gas: 100_000_000_000_000,
        },
        callback: CallbackCall {
            receiver_id: "proxy.near".to_string(),
            method_name: "cb_mint".to_string(),
            args: MintContext {
                latest_minter_id: "bob".to_string(),
                nft_contract_id: "svc.A".to_string(),
            },
            deposit: 0,
            gas: 50_000_000_000_000,
        },
    };
    assert_eq!(request, expected);
}

#[test]
fn callback_has_the_smaller_budget() {
    let request = MintRequest::new(
        "alice".to_string(),
        Metadata::default(),
        "alice".to_string(),
        "svc.A".to_string(),
        "proxy.near".to_string(),
    );
    assert!(request.callback.gas < request.mint.gas);
    assert_eq!(request.mint.deposit, 0);
    assert_eq!(request.callback.deposit, 0);
}

#[test]
fn mint_passes_the_metadata_through_untouched() {
    let mut proxy = MinstaProxyMinter::default();
    let request = proxy
        .mint(
            Some(sample_metadata()),
            "svc.A".to_string(),
            "alice".to_string(),
            "proxy.near".to_string(),
        )
        .unwrap();
    assert_eq!(request.mint.args.metadata, sample_metadata());
}

#[test]
fn mint_of_an_empty_record_carries_no_field() {
    let mut proxy = MinstaProxyMinter::default();
    let request = proxy
        .mint(
            Some(Metadata::default()),
            "svc.A".to_string(),
            "alice".to_string(),
            "proxy.near".to_string(),
        )
        .unwrap();
    let metadata = request.mint.args.metadata;
    assert_eq!(metadata.title, None);
    assert_eq!(metadata.description, None);
    assert_eq!(metadata.media, None);
    assert_eq!(metadata.media_hash, None);
    assert_eq!(metadata.copies, None);
    assert_eq!(metadata.expires_at, None);
    assert_eq!(metadata.starts_at, None);
    assert_eq!(metadata.extra, None);
    assert_eq!(metadata.reference, None);
    assert_eq!(metadata.reference_hash, None);
}

#[test]
fn royalty_goes_to_the_caller_even_when_another_account_owns() {
    let mut proxy = MinstaProxyMinter::default();
    assert!(proxy.cb_mint("alice".to_string(), "svc.A".to_string(), 1));

    let request = proxy
        .mint(
            Some(Metadata::default()),
            "svc.A".to_string(),
            "bob".to_string(),
            "proxy.near".to_string(),
        )
        .unwrap();
    assert_eq!(request.mint.args.owner_id, "alice");
    assert_eq!(
        request.mint.args.royalty_args.split_between,
        vec![RoyaltyShare { account_id: "bob".to_string(), basis_points: 10000 }]
    );
    assert_eq!(request.mint.args.royalty_args.percentage, 1000);
    assert_eq!(request.mint.args.num_to_mint, 1);
    assert_eq!(request.mint.args.split_owners, None);
}

#[test]
fn callback_is_bound_to_the_proxy_and_carries_the_mint_context() {
    let mut proxy = MinstaProxyMinter::default();
    assert!(proxy.cb_mint("alice".to_string(), "svc.A".to_string(), 1));

    let request = proxy
        .mint(
            Some(Metadata::default()),
            "svc.A".to_string(),
            "bob".to_string(),
            "proxy.near".to_string(),
        )
        .unwrap();
    assert_eq!(request.mint.receiver_id, "svc.A");
    assert_eq!(request.mint.method_name, "nft_batch_mint");
    assert_eq!(request.mint.gas, 100_000_000_000_000);
    assert_eq!(request.callback.receiver_id, "proxy.near");
    assert_eq!(request.callback.method_name, "cb_mint");
    assert_eq!(request.callback.gas, 50_000_000_000_000);
    // The context names the caller, not the beneficial owner.
    assert_eq!(
        request.callback.args,
        MintContext { latest_minter_id: "bob".to_string(), nft_contract_id: "svc.A".to_string() }
    );
}
