use vstd::prelude::*;

use crate::account_id::AccountId;
use crate::contract_context::ContractContext;
use crate::method_version::MethodVersion;

verus! {

/// What the host tells a contract about the call it is running.
pub struct CallEnvironment {
    /// The account the contract runs on.
    pub current_account_id: AccountId,
    /// The account that made the call.
    pub predecessor_account_id: AccountId,
    /// The context the contract runs in.
    pub current_context: ContractContext,
    /// The context of the contract that made the call.
    pub predecessor_context: ContractContext,
    /// The deposit attached to the call, in yoctoNEAR.
    pub attached_deposit: u128,
}

/// The result of the call that a callback follows.
#[derive(Debug)]
pub enum PromiseResult {
    /// The call returned these bytes.
    Successful(Vec<u8>),
    /// The call failed.
    Failed,
}

/// One teragas.
pub const ONE_TERAGAS: u64 = 1_000_000_000_000;

/// The gas a scheduled call gets.
#[derive(Debug, PartialEq, Eq, Structural)]
pub enum GasAllocation {
    /// A fixed amount of gas.
    Static(u64),
    /// A share of the gas left over, with this weight.
    UnusedWeight(u64),
}

/// A method call that the token schedules, with its arguments.
#[derive(Debug)]
pub enum ScheduledMethod {
    /// `sharded_ft_receive` on the receiving holder.
    ShardedFtReceive { amount: u128, memo: Option<String>, version: MethodVersion },
    /// `settle_sharded_ft_transfer` back on the sender.
    SettleShardedFtTransfer { amount: u128, version: MethodVersion },
    /// `sharded_ft_on_transfer` on the receiving contract.
    ShardedFtOnTransfer {
        sender_id: AccountId,
        amount: u128,
        msg: String,
        version: MethodVersion,
    },
    /// `sharded_ft_resolve_call` on the receiving holder.
    ShardedFtResolveCall { amount: u128, memo: Option<String>, version: MethodVersion },
    /// `sharded_ft_refund_call` back on the sender.
    ShardedFtRefundCall { amount: u128, version: MethodVersion },
    /// `balance` on a holder.
    Balance { version: MethodVersion },
    /// `ft_resolve_balance_of` back on the root contract.
    FtResolveBalanceOf,
}

/// A cross-contract call to schedule.
#[derive(Debug)]
pub struct ScheduledCall {
    /// The account to call.
    pub receiver_id: AccountId,
    /// The context the called code runs in.
    pub context: ContractContext,
    /// The gas the call gets.
    pub gas: GasAllocation,
    /// The method and its arguments.
    pub method: ScheduledMethod,
}

/// The `ft_transfer` event (NEP-141) to emit.
#[derive(Debug)]
pub struct FtTransfer {
    pub old_owner_id: AccountId,
    pub new_owner_id: AccountId,
    pub amount: u128,
    pub memo: Option<String>,
}

/// `None` when the call comes from the very context the contract runs in and
/// that context is sharded; otherwise the refusal, `AccessDenied` first.
pub open spec fn internal_sharded_call_check(env: CallEnvironment) -> Option<
    crate::error::TokenError,
> {
    if env.current_context@ != env.predecessor_context@ {
        Some(crate::error::TokenError::AccessDenied)
    } else if !(env.current_context@ is Sharded) {
        Some(crate::error::TokenError::ShardedContextRequired)
    } else {
        None
    }
}

/// `None` when the contract calls itself; otherwise `AccessDenied`.
pub open spec fn private_call_check(env: CallEnvironment) -> Option<crate::error::TokenError> {
    if env.current_account_id@ != env.predecessor_account_id@ {
        Some(crate::error::TokenError::AccessDenied)
    } else {
        None
    }
}

/// `None` when exactly one yoctoNEAR is attached; otherwise `OneYoctoRequired`.
pub open spec fn one_yocto_check(env: CallEnvironment) -> Option<crate::error::TokenError> {
    if env.attached_deposit != 1 {
        Some(crate::error::TokenError::OneYoctoRequired)
    } else {
        None
    }
}

} // verus!
