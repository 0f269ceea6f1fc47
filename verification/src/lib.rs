//! A sharded fungible token: every holder keeps its own balance on its own
//! account, under one shared (sharded) contract code, and tokens move between
//! holders through chains of cross-contract calls.
//!
//! The contract methods here are decision functions: what the host tells
//! about the current call (`CallEnvironment`), and, for callbacks, the result
//! of the call they follow, come in as plain values; the new balance, the
//! calls to schedule and the events to emit come out as plain values. A
//! refused call returns a `TokenError` and leaves the balance as it was, as
//! the host's abort of the call does.

pub mod account_id;
pub mod behaviour;
pub mod call_receiver;
pub mod contract_context;
pub mod core_impl;
pub mod core_root_impl;
pub mod environment;
pub mod error;
pub mod laws;
pub mod method_version;
pub mod token_core;

pub use account_id::AccountId;
pub use call_receiver::{TransferCallResponseValue, TransferCallResult};
pub use contract_context::{ContractContext, GlobalContractCodeIdentifier};
pub use core_impl::ShardedFungibleToken;
pub use core_root_impl::ShardedFungibleTokenRoot;
pub use environment::{
    CallEnvironment, FtTransfer, GasAllocation, PromiseResult, ScheduledCall, ScheduledMethod,
};
pub use error::TokenError;
pub use method_version::MethodVersion;
pub use token_core::{
    BalanceLookupResult, BalanceOfPlan, ResolvedTransfer, ShardedFungibleTokenCore, ShardedFungibleTokenCoreRoot, TransferCallPlan,
    TransferPlan,
};
