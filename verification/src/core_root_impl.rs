use vstd::prelude::*;

use crate::account_id::AccountId;
use crate::contract_context::{ContractContext, GlobalContractCodeIdentifier};
use crate::core_impl::require_private;
use crate::environment::{
    private_call_check, CallEnvironment, GasAllocation, ScheduledCall, ScheduledMethod,
    ONE_TERAGAS,
};
use crate::error::TokenError;
use crate::method_version::{version_zero, MethodVersion};
use crate::token_core::{BalanceLookupResult, BalanceOfPlan, ShardedFungibleTokenCoreRoot};

verus! {

/// The calls `ft_balance_of` schedules: `balance` on the holder, which runs
/// the sharded code that this root account deployed, then the callback on
/// the root itself.
pub open spec fn balance_of_plan(env: CallEnvironment, account_id: AccountId) -> BalanceOfPlan {
    BalanceOfPlan {
        lookup: ScheduledCall {
            receiver_id: account_id,
            context: ContractContext::Sharded {
                code_id: GlobalContractCodeIdentifier::AccountId(env.current_account_id),
            },
            gas: GasAllocation::UnusedWeight(1),
            method: ScheduledMethod::Balance { version: version_zero() },
        },
        resolve: ScheduledCall {
            receiver_id: env.current_account_id,
            context: env.current_context,
            gas: GasAllocation::Static(ONE_TERAGAS),
            method: ScheduledMethod::FtResolveBalanceOf,
        },
    }
}

/// The balance `ft_resolve_balance_of` answers: the one the holder returned,
/// and 0 when the holder's call failed or returned no balance.
pub open spec fn looked_up_balance(lookup: BalanceLookupResult) -> u128 {
    match lookup {
        BalanceLookupResult::Returned(b) => b,
        _ => 0,
    }
}

/// The root contract of a sharded fungible token, on the central account.
#[derive(Debug)]
pub struct ShardedFungibleTokenRoot {
    total_supply: u128,
}

impl Default for ShardedFungibleTokenRoot {
    fn default() -> (r: Self)
        ensures
            r.total_supply() == 0,
    {
        ShardedFungibleTokenRoot { total_supply: 0 }
    }
}

impl ShardedFungibleTokenRoot {
    /// The total supply the root records.
    pub closed spec fn total_supply(self) -> u128 {
        self.total_supply
    }

    /// Callback of `ft_balance_of`, on the root: answers the holder's
    /// balance, or 0 when the account holds no token.
    pub fn ft_resolve_balance_of(&self, env: &CallEnvironment, lookup: &BalanceLookupResult) -> (r:
        Result<u128, TokenError>)
        ensures
            private_call_check(*env) matches Some(e) ==> r == Err::<u128, TokenError>(e),
            private_call_check(*env) is None ==> r == Ok::<u128, TokenError>(
                looked_up_balance(*lookup),
            ),
    {
        require_private(env)?;
        match lookup {
            BalanceLookupResult::Returned(b) => Ok(*b),
            BalanceLookupResult::Failed => Ok(0),
            BalanceLookupResult::Malformed => Ok(0),
        }
    }
}

impl ShardedFungibleTokenCoreRoot for ShardedFungibleTokenRoot {
    fn ft_total_supply(&self) -> (r: u128)
        ensures
            r == self.total_supply(),
    {
        self.total_supply
    }

    fn ft_balance_of(&self, env: &CallEnvironment, account_id: AccountId) -> (plan: BalanceOfPlan)
        ensures
            plan == balance_of_plan(*env, account_id),
    {
        let lookup = ScheduledCall {
            receiver_id: account_id,
            context: ContractContext::Sharded {
                code_id: GlobalContractCodeIdentifier::AccountId(env.current_account_id.clone()),
            },
            gas: GasAllocation::UnusedWeight(1),
            method: ScheduledMethod::Balance { version: MethodVersion::v0() },
        };
        let resolve = ScheduledCall {
            receiver_id: env.current_account_id.clone(),
            context: env.current_context.clone(),
            gas: GasAllocation::Static(ONE_TERAGAS),
            method: ScheduledMethod::FtResolveBalanceOf,
        };
        BalanceOfPlan { lookup, resolve }
    }
}

} // verus!
