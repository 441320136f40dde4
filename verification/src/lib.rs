//! Verified core of a proxy that forwards batch-mint requests to a collectible
//! issuing service and remembers, per service, who minted last.
//!
//! The proxy is a two-phase state machine over one piece of durable state, the
//! registry of latest minters:
//!
//! 1. [`MinstaProxyMinter::mint`] accepts a request and describes the remote
//!    batch mint to issue, together with the callback to chain to it.
//! 2. [`MinstaProxyMinter::cb_mint`] runs as that callback once the remote
//!    call has settled, and puts the minter on record if exactly one result is
//!    attached.
//!
//! [`MinstaProxyMinter::get_latest_minter`] reads the registry. The module
//! [`laws`] states what holds across these operations.

pub mod account;
pub mod laws;
pub mod metadata;
pub mod minter;
pub mod registry;
pub mod request;

pub use account::AccountId;
pub use metadata::Metadata;
pub use minter::{MinstaProxyMinter, MintError};
pub use registry::LatestMinters;
pub use request::{
    BatchMintArgs, CallbackCall, MintCall, MintContext, MintRequest, RoyaltyArgs, RoyaltyShare,
};
