use vstd::prelude::*;

use crate::account_id::AccountId;
use crate::call_receiver::TransferCallResult;
use crate::contract_context::ContractContext;
use crate::environment::{CallEnvironment, FtTransfer, PromiseResult, ScheduledCall};
use crate::error::TokenError;
use crate::method_version::MethodVersion;

verus! {

/// What `sharded_ft_transfer` schedules: `receive` on the receiver, then
/// `settle` back on the sender.
#[derive(Debug)]
pub struct TransferPlan {
    pub receive: ScheduledCall,
    pub settle: ScheduledCall,
}

/// What `sharded_ft_transfer_call` schedules: `on_transfer` on the receiving
/// contract, then both `deposit` (on the receiver) and `refund` (on the
/// sender). The call's value is the value of `deposit`.
#[derive(Debug)]
pub struct TransferCallPlan {
    pub on_transfer: ScheduledCall,
    pub deposit: ScheduledCall,
    pub refund: ScheduledCall,
}

/// What `sharded_ft_resolve_call` does on success: the amount it credited
/// (also the value it returns) and the event to emit.
#[derive(Debug)]
pub struct ResolvedTransfer {
    pub transferred: u128,
    pub event: FtTransfer,
}

/// What `ft_balance_of` schedules: `lookup`, the `balance` call on the
/// holder, then `resolve` back on the root contract. The call's value is the
/// value of `resolve`.
#[derive(Debug)]
pub struct BalanceOfPlan {
    pub lookup: ScheduledCall,
    pub resolve: ScheduledCall,
}

/// The result of the `balance` call on a holder, as the root reads it.
#[derive(Debug)]
pub enum BalanceLookupResult {
    /// The call failed: the account holds no token contract.
    Failed,
    /// The call returned bytes that are no balance.
    Malformed,
    /// The call returned this balance.
    Returned(u128),
}

/// The core methods for a basic sharded fungible token. Extension standards may
/// be added in addition to this trait.
///
/// This is the contract to be deployed globally and used by all users on their
/// accounts. Each method takes what the host tells about the call in `env`,
/// and returns what to schedule or emit; `Err` refuses the call.
pub trait ShardedFungibleTokenCore {
    /// Read and return the balance of the current account.
    ///
    /// Cannot read the balance of other accounts. Go to the root FT contract
    /// and use `ShardedFungibleTokenCoreRoot` to read any balance.
    fn balance(&self, version: MethodVersion) -> Result<u128, TokenError>;

    fn sharded_ft_transfer(
        &mut self,
        env: &CallEnvironment,
        receiver_id: AccountId,
        amount: u128,
        memo: Option<String>,
        version: MethodVersion,
    ) -> Result<TransferPlan, TokenError>;

    fn sharded_ft_receive(
        &mut self,
        env: &CallEnvironment,
        amount: u128,
        memo: Option<String>,
        version: MethodVersion,
    ) -> Result<FtTransfer, TokenError>;

    /// Called at the end of the "transfer -> receive" promise chain, with the
    /// result of `sharded_ft_receive`.
    ///
    /// On failure, the amount that should have been sent is returned and must
    /// be added back to the balance of the sender.
    ///
    /// Calls that are not from a sharded context that exactly matches the
    /// current sharded context must be refused.
    fn settle_sharded_ft_transfer(
        &mut self,
        env: &CallEnvironment,
        amount: u128,
        version: MethodVersion,
        receive_result: &PromiseResult,
    ) -> Result<(), TokenError>;

    fn sharded_ft_transfer_call(
        &mut self,
        env: &CallEnvironment,
        receiver_id: AccountId,
        target_contract_context: ContractContext,
        amount: u128,
        memo: Option<String>,
        msg: String,
        version: MethodVersion,
    ) -> Result<TransferCallPlan, TokenError>;

    /// Callback at the end of transfer_call, on the receiver.
    fn sharded_ft_resolve_call(
        &mut self,
        env: &CallEnvironment,
        amount: u128,
        memo: Option<String>,
        version: MethodVersion,
        on_transfer_result: &TransferCallResult,
    ) -> Result<ResolvedTransfer, TokenError>;

    /// Callback at the end of transfer_call, on the sender.
    fn sharded_ft_refund_call(
        &mut self,
        env: &CallEnvironment,
        amount: u128,
        version: MethodVersion,
        on_transfer_result: &TransferCallResult,
    ) -> Result<(), TokenError>;
}

/// This root contract interface is to be deployed on the central account that
/// manages the sharded FT. Extension standards may be added in addition to this
/// trait.
pub trait ShardedFungibleTokenCoreRoot {
    /// Returns the total supply of the token.
    fn ft_total_supply(&self) -> u128;

    /// Returns the balance of the account. If the account doesn't exist must returns `0`.
    ///
    /// The balance lives on the account itself, so this schedules a call
    /// there and a callback that answers its result.
    fn ft_balance_of(&self, env: &CallEnvironment, account_id: AccountId) -> BalanceOfPlan;
}

} // verus!
