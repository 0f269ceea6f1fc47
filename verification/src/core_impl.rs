use vstd::prelude::*;

use crate::account_id::AccountId;
use crate::call_receiver::{
    refund_credit, resolve_credit, TransferCallResponseValue, TransferCallResult,
};
use crate::contract_context::{
    CodeIdentifierView, ContractContext, ContractContextView, GlobalContractCodeIdentifier,
};
use crate::environment::{
    internal_sharded_call_check, one_yocto_check, private_call_check,
    CallEnvironment, FtTransfer, GasAllocation, PromiseResult, ScheduledCall, ScheduledMethod,
    ONE_TERAGAS,
};
use crate::error::TokenError;
use crate::method_version::{version_supported, version_zero, MethodVersion};
use crate::token_core::{ResolvedTransfer, ShardedFungibleTokenCore, TransferCallPlan, TransferPlan};

verus! {

/// The balance after receiving `amount`, if it stays within `u128`.
pub open spec fn deposited(balance: u128, amount: u128) -> Option<u128> {
    if balance + amount <= u128::MAX {
        Some((balance + amount) as u128)
    } else {
        None
    }
}

/// The balance after giving away `amount`, if the balance covers it.
pub open spec fn withdrawn(balance: u128, amount: u128) -> Option<u128> {
    if amount <= balance {
        Some((balance - amount) as u128)
    } else {
        None
    }
}

/// The balance after a deposit, or `BalanceOverflow`.
pub open spec fn deposit_outcome(balance: u128, amount: u128) -> Result<u128, TokenError> {
    match deposited(balance, amount) {
        Some(b) => Ok(b),
        None => Err(TokenError::BalanceOverflow),
    }
}

/// The balance after a withdrawal, or `BalanceOverflow`.
pub open spec fn withdraw_outcome(balance: u128, amount: u128) -> Result<u128, TokenError> {
    match withdrawn(balance, amount) {
        Some(b) => Ok(b),
        None => Err(TokenError::BalanceOverflow),
    }
}

/// `None` for a version this implementation handles; `UnsupportedVersion` otherwise.
pub open spec fn version_check(version: MethodVersion) -> Option<TokenError> {
    if version_supported(version) {
        None
    } else {
        Some(TokenError::UnsupportedVersion)
    }
}

/// `None` for a sharded context; `ShardedContextRequired` otherwise.
pub open spec fn sharded_check(context: ContractContext) -> Option<TokenError> {
    if context@ is Sharded {
        None
    } else {
        Some(TokenError::ShardedContextRequired)
    }
}

/// `None` when the receiver is not the caller; `SelfTransfer` otherwise.
pub open spec fn self_transfer_check(env: CallEnvironment, receiver_id: AccountId) -> Option<
    TokenError,
> {
    if env.predecessor_account_id@ == receiver_id@ {
        Some(TokenError::SelfTransfer)
    } else {
        None
    }
}

/// `None` when the caller is a root contract and the contract runs on the
/// caller's own account in the sharded context of the code that account
/// deployed (the one "admin" instance, `ft.near@ft.near`); `AccessDenied`
/// otherwise.
pub open spec fn initial_supply_check(env: CallEnvironment) -> Option<TokenError> {
    if !(env.predecessor_context@ is Root) {
        Some(TokenError::AccessDenied)
    } else if env.current_context@ != ContractContextView::Sharded(
        CodeIdentifierView::AccountId(env.predecessor_account_id@),
    ) {
        Some(TokenError::AccessDenied)
    } else if env.current_account_id@ != env.predecessor_account_id@ {
        Some(TokenError::AccessDenied)
    } else {
        None
    }
}

/// The refusal of a failed check, or else `rest`.
pub open spec fn guarded(check: Option<TokenError>, rest: Result<u128, TokenError>) -> Result<
    u128,
    TokenError,
> {
    match check {
        Some(e) => Err(e),
        None => rest,
    }
}

/// A check as the result of a call that only checks.
pub open spec fn check_result(check: Option<TokenError>) -> Result<(), TokenError> {
    match check {
        Some(e) => Err(e),
        None => Ok(()),
    }
}

/// A call's result with its value replaced by the balance after the call.
pub open spec fn outcome_of<T>(r: Result<T, TokenError>, balance: u128) -> Result<u128, TokenError> {
    match r {
        Ok(_) => Ok(balance),
        Err(e) => Err(e),
    }
}

/// The balance after `sharded_ft_transfer`, or its refusal.
pub open spec fn transfer_outcome(
    balance: u128,
    env: CallEnvironment,
    receiver_id: AccountId,
    amount: u128,
    version: MethodVersion,
) -> Result<u128, TokenError> {
    guarded(
        version_check(version),
        guarded(
            private_call_check(env),
            guarded(
                one_yocto_check(env),
                guarded(
                    self_transfer_check(env, receiver_id),
                    match withdrawn(balance, amount) {
                        None => Err(TokenError::BalanceOverflow),
                        Some(b) => guarded(sharded_check(env.current_context), Ok(b)),
                    },
                ),
            ),
        ),
    )
}

/// The balance after `sharded_ft_receive`, or its refusal.
pub open spec fn receive_outcome(
    balance: u128,
    env: CallEnvironment,
    amount: u128,
    version: MethodVersion,
) -> Result<u128, TokenError> {
    guarded(
        internal_sharded_call_check(env),
        guarded(version_check(version), deposit_outcome(balance, amount)),
    )
}

/// The balance after `settle_sharded_ft_transfer`, or its refusal; the amount
/// comes back only when the receive failed.
pub open spec fn settle_outcome(
    balance: u128,
    env: CallEnvironment,
    amount: u128,
    version: MethodVersion,
    receive_failed: bool,
) -> Result<u128, TokenError> {
    guarded(
        private_call_check(env),
        guarded(
            internal_sharded_call_check(env),
            guarded(
                version_check(version),
                if receive_failed {
                    deposit_outcome(balance, amount)
                } else {
                    Ok(balance)
                },
            ),
        ),
    )
}

/// The balance after `sharded_ft_transfer_call`, or its refusal; only the
/// holder itself may send its tokens.
pub open spec fn transfer_call_outcome(
    balance: u128,
    env: CallEnvironment,
    amount: u128,
    version: MethodVersion,
) -> Result<u128, TokenError> {
    guarded(
        version_check(version),
        guarded(
            private_call_check(env),
            guarded(
                one_yocto_check(env),
                guarded(sharded_check(env.current_context), withdraw_outcome(balance, amount)),
            ),
        ),
    )
}

/// The balance after `sharded_ft_resolve_call`, or its refusal. The call
/// runs on the receiver and comes from the sender's account, so only the
/// context is checked, not the account.
pub open spec fn resolve_outcome(
    balance: u128,
    env: CallEnvironment,
    amount: u128,
    version: MethodVersion,
    result: TransferCallResult,
) -> Result<u128, TokenError> {
    guarded(
        internal_sharded_call_check(env),
        guarded(version_check(version), deposit_outcome(balance, resolve_credit(amount, result))),
    )
}

/// The balance after `sharded_ft_refund_call`, or its refusal.
pub open spec fn refund_outcome(
    balance: u128,
    env: CallEnvironment,
    amount: u128,
    version: MethodVersion,
    result: TransferCallResult,
) -> Result<u128, TokenError> {
    guarded(
        private_call_check(env),
        guarded(
            internal_sharded_call_check(env),
            guarded(version_check(version), deposit_outcome(balance, refund_credit(amount, result))),
        ),
    )
}

/// The calls `sharded_ft_transfer` schedules.
pub open spec fn transfer_plan(
    env: CallEnvironment,
    receiver_id: AccountId,
    amount: u128,
    memo: Option<String>,
) -> TransferPlan {
    TransferPlan {
        receive: ScheduledCall {
            receiver_id: receiver_id,
            context: env.current_context,
            gas: GasAllocation::UnusedWeight(1),
            method: ScheduledMethod::ShardedFtReceive { amount, memo, version: version_zero() },
        },
        settle: ScheduledCall {
            receiver_id: env.current_account_id,
            context: env.current_context,
            gas: GasAllocation::Static(ONE_TERAGAS),
            method: ScheduledMethod::SettleShardedFtTransfer { amount, version: version_zero() },
        },
    }
}

/// The calls `sharded_ft_transfer_call` schedules.
pub open spec fn transfer_call_plan(
    env: CallEnvironment,
    receiver_id: AccountId,
    target_contract_context: ContractContext,
    amount: u128,
    memo: Option<String>,
    msg: String,
) -> TransferCallPlan {
    TransferCallPlan {
        on_transfer: ScheduledCall {
            receiver_id: receiver_id,
            context: target_contract_context,
            gas: GasAllocation::UnusedWeight(1),
            method: ScheduledMethod::ShardedFtOnTransfer {
                sender_id: env.predecessor_account_id,
                amount,
                msg,
                version: version_zero(),
            },
        },
        deposit: ScheduledCall {
            receiver_id: receiver_id,
            context: env.current_context,
            gas: GasAllocation::Static(ONE_TERAGAS),
            method: ScheduledMethod::ShardedFtResolveCall { amount, memo, version: version_zero() },
        },
        refund: ScheduledCall {
            receiver_id: env.current_account_id,
            context: env.current_context,
            gas: GasAllocation::Static(ONE_TERAGAS),
            method: ScheduledMethod::ShardedFtRefundCall { amount, version: version_zero() },
        },
    }
}

/// The event that records `amount` moving from the caller to this account.
pub open spec fn transfer_event(env: CallEnvironment, amount: u128, memo: Option<String>) -> FtTransfer {
    FtTransfer {
        old_owner_id: env.predecessor_account_id,
        new_owner_id: env.current_account_id,
        amount,
        memo,
    }
}

/// Implementation of a sharded fungible token standard.
#[derive(Debug)]
pub struct ShardedFungibleToken {
    /// Local account balance.
    ///
    /// This is how much of the FT the current account holds. It starts at 0 and
    /// can only be increased by incoming deposits.
    ///
    /// This basic core implementation only allows minting once at
    /// initialization, only on one account, using `new_with_initial_supply`.
    pub balance: u128,
}

impl Default for ShardedFungibleToken {
    fn default() -> (r: Self)
        ensures
            r.balance == 0,
    {
        ShardedFungibleToken { balance: 0 }
    }
}

/// Checks that the caller is from the same sharded context.
pub fn require_internal_sharded_call(env: &CallEnvironment) -> (r: Result<(), TokenError>)
    ensures
        r == check_result(internal_sharded_call_check(*env)),
{
    // Check we are called by the exact same context,
    if env.current_context != env.predecessor_context {
        return Err(TokenError::AccessDenied);
    }
    // Defensive check that we are in a sharded context.
    if !env.current_context.is_sharded() {
        return Err(TokenError::ShardedContextRequired);
    }
    Ok(())
}

/// Checks that the contract calls itself.
pub fn require_private(env: &CallEnvironment) -> (r: Result<(), TokenError>)
    ensures
        r == check_result(private_call_check(*env)),
{
    if env.current_account_id != env.predecessor_account_id {
        return Err(TokenError::AccessDenied);
    }
    Ok(())
}

/// Checks that the call carries exactly one yoctoNEAR, which only a full
/// access key can attach.
pub fn assert_one_yocto(env: &CallEnvironment) -> (r: Result<(), TokenError>)
    ensures
        r == check_result(one_yocto_check(*env)),
{
    if env.attached_deposit != 1 {
        return Err(TokenError::OneYoctoRequired);
    }
    Ok(())
}

impl ShardedFungibleToken {
    /// A token holder with nothing.
    pub fn new() -> (r: Self)
        ensures
            r.balance == 0,
    {
        ShardedFungibleToken { balance: 0 }
    }

    /// The one minting: accepted only on the "admin" instance, the root
    /// account's own account running the sharded code that account deployed
    /// (`ft.near@ft.near`), and only when called from that root contract.
    pub fn new_with_initial_supply(env: &CallEnvironment, initial_supply: u128) -> (r: Result<
        Self,
        TokenError,
    >)
        ensures
            initial_supply_check(*env) matches Some(e) ==> r == Err::<Self, TokenError>(e),
            initial_supply_check(*env) is None ==> (r matches Ok(t) && t.balance == initial_supply),
    {
        // Check we are the "admin" instance, defined as `ft.near@ft.near`
        let admin_context = ContractContext::Sharded {
            code_id: GlobalContractCodeIdentifier::AccountId(env.predecessor_account_id.clone()),
        };
        if env.predecessor_context.is_sharded() {
            return Err(TokenError::AccessDenied);
        }
        if env.current_context != admin_context {
            return Err(TokenError::AccessDenied);
        }
        // Only the admin account itself, not another account running its code
        if env.current_account_id != env.predecessor_account_id {
            return Err(TokenError::AccessDenied);
        }
        Ok(ShardedFungibleToken { balance: initial_supply })
    }

    /// Adds `amount` to the balance; refuses with `BalanceOverflow`, changing
    /// nothing, when the sum leaves `u128`.
    pub fn internal_deposit(&mut self, amount: u128) -> (r: Result<(), TokenError>)
        ensures
            outcome_of(r, final(self).balance) == deposit_outcome(old(self).balance, amount),
            r is Err ==> final(self).balance == old(self).balance,
    {
        match self.balance.checked_add(amount) {
            Some(b) => {
                self.balance = b;
                Ok(())
            },
            None => Err(TokenError::BalanceOverflow),
        }
    }

    /// Takes `amount` from the balance; refuses with `BalanceOverflow`,
    /// changing nothing, when the balance does not cover it.
    pub fn internal_withdraw(&mut self, amount: u128) -> (r: Result<(), TokenError>)
        ensures
            outcome_of(r, final(self).balance) == withdraw_outcome(old(self).balance, amount),
            r is Err ==> final(self).balance == old(self).balance,
    {
        match self.balance.checked_sub(amount) {
            Some(b) => {
                self.balance = b;
                Ok(())
            },
            None => Err(TokenError::BalanceOverflow),
        }
    }
}

impl ShardedFungibleTokenCore for ShardedFungibleToken {
    fn balance(&self, version: MethodVersion) -> (r: Result<u128, TokenError>)
        ensures
            r == guarded(version_check(version), Ok(self.balance)),
    {
        version.assert_v0()?;
        Ok(self.balance)
    }

    fn sharded_ft_transfer(
        &mut self,
        env: &CallEnvironment,
        receiver_id: AccountId,
        amount: u128,
        memo: Option<String>,
        version: MethodVersion,
    ) -> (r: Result<TransferPlan, TokenError>)
        ensures
            outcome_of(r, final(self).balance) == transfer_outcome(
                old(self).balance,
                *env,
                receiver_id,
                amount,
                version,
            ),
            r is Err ==> final(self).balance == old(self).balance,
            r matches Ok(plan) ==> plan == transfer_plan(*env, receiver_id, amount, memo),
    {
        version.assert_v0()?;

        // Ensure the call is from the owner
        require_private(env)?;

        // Ensure caller has full access
        assert_one_yocto(env)?;

        // Get rid of a corner case that's not needed.
        if env.predecessor_account_id == receiver_id {
            return Err(TokenError::SelfTransfer);
        }

        let remaining = match self.balance.checked_sub(amount) {
            Some(b) => b,
            None => return Err(TokenError::BalanceOverflow),
        };

        // Defensive check that we are in a sharded context.
        if !env.current_context.is_sharded() {
            return Err(TokenError::ShardedContextRequired);
        }
        self.balance = remaining;

        let receive = ScheduledCall {
            receiver_id,
            context: env.current_context.clone(),
            gas: GasAllocation::UnusedWeight(1),
            method: ScheduledMethod::ShardedFtReceive { amount, memo, version: MethodVersion::v0() },
        };
        let settle = ScheduledCall {
            receiver_id: env.current_account_id.clone(),
            context: env.current_context.clone(),
            gas: GasAllocation::Static(ONE_TERAGAS),
            method: ScheduledMethod::SettleShardedFtTransfer { amount, version: MethodVersion::v0() },
        };
        Ok(TransferPlan { receive, settle })
    }

    fn sharded_ft_receive(
        &mut self,
        env: &CallEnvironment,
        amount: u128,
        memo: Option<String>,
        version: MethodVersion,
    ) -> (r: Result<FtTransfer, TokenError>)
        ensures
            outcome_of(r, final(self).balance) == receive_outcome(old(self).balance, *env, amount, version),
            r is Err ==> final(self).balance == old(self).balance,
            r matches Ok(event) ==> event == transfer_event(*env, amount, memo),
    {
        require_internal_sharded_call(env)?;
        version.assert_v0()?;

        self.internal_deposit(amount)?;

        // This is the point of no return for a sharded_ft_transfer, so we emit
        // the transfer here.
        Ok(FtTransfer {
            old_owner_id: env.predecessor_account_id.clone(),
            new_owner_id: env.current_account_id.clone(),
            amount,
            memo,
        })
    }

    fn settle_sharded_ft_transfer(
        &mut self,
        env: &CallEnvironment,
        amount: u128,
        version: MethodVersion,
        receive_result: &PromiseResult,
    ) -> (r: Result<(), TokenError>)
        ensures
            outcome_of(r, final(self).balance) == settle_outcome(
                old(self).balance,
                *env,
                amount,
                version,
                *receive_result is Failed,
            ),
            r is Err ==> final(self).balance == old(self).balance,
    {
        require_private(env)?;
        require_internal_sharded_call(env)?;

        // Settlements are only sent as callbacks, hence from self.
        version.assert_v0()?;

        match receive_result {
            PromiseResult::Successful(_) => {
                // ok => nothing to do
                Ok(())
            },
            PromiseResult::Failed => {
                // transfer failed, take back the amount sent
                self.internal_deposit(amount)
            },
        }
    }

    fn sharded_ft_transfer_call(
        &mut self,
        env: &CallEnvironment,
        receiver_id: AccountId,
        target_contract_context: ContractContext,
        amount: u128,
        memo: Option<String>,
        msg: String,
        version: MethodVersion,
    ) -> (r: Result<TransferCallPlan, TokenError>)
        ensures
            outcome_of(r, final(self).balance) == transfer_call_outcome(
                old(self).balance,
                *env,
                amount,
                version,
            ),
            r is Err ==> final(self).balance == old(self).balance,
            r matches Ok(plan) ==> plan == transfer_call_plan(
                *env,
                receiver_id,
                target_contract_context,
                amount,
                memo,
                msg,
            ),
    {
        version.assert_v0()?;

        // Ensure the call is from the owner
        require_private(env)?;

        assert_one_yocto(env)?;

        // Defensive check that we are in a sharded context.
        if !env.current_context.is_sharded() {
            return Err(TokenError::ShardedContextRequired);
        }

        // remove tokens from local balance
        // floating = amount
        self.internal_withdraw(amount)?;

        // The receiving contract answers how much it used; anything else counts
        // as a failure (refund all, transfer nothing).
        let on_transfer = ScheduledCall {
            receiver_id: receiver_id.clone(),
            context: target_contract_context,
            gas: GasAllocation::UnusedWeight(1),
            method: ScheduledMethod::ShardedFtOnTransfer {
                sender_id: env.predecessor_account_id.clone(),
                amount,
                msg,
                version: MethodVersion::v0(),
            },
        };
        // this must not fail, or tokens are burnt rather than received
        let deposit = ScheduledCall {
            receiver_id,
            context: env.current_context.clone(),
            gas: GasAllocation::Static(ONE_TERAGAS),
            method: ScheduledMethod::ShardedFtResolveCall { amount, memo, version: MethodVersion::v0() },
        };
        // this must not fail, or tokens are burnt rather than refunded
        let refund = ScheduledCall {
            receiver_id: env.current_account_id.clone(),
            context: env.current_context.clone(),
            gas: GasAllocation::Static(ONE_TERAGAS),
            method: ScheduledMethod::ShardedFtRefundCall { amount, version: MethodVersion::v0() },
        };
        Ok(TransferCallPlan { on_transfer, deposit, refund })
    }

    fn sharded_ft_resolve_call(
        &mut self,
        env: &CallEnvironment,
        amount: u128,
        memo: Option<String>,
        version: MethodVersion,
        on_transfer_result: &TransferCallResult,
    ) -> (r: Result<ResolvedTransfer, TokenError>)
        ensures
            outcome_of(r, final(self).balance) == resolve_outcome(
                old(self).balance,
                *env,
                amount,
                version,
                *on_transfer_result,
            ),
            r is Err ==> final(self).balance == old(self).balance,
            r matches Ok(resolved) ==> {
                &&& resolved.transferred == resolve_credit(amount, *on_transfer_result)
                &&& resolved.event == transfer_event(*env, resolved.transferred, memo)
            },
    {
        // Runs on the receiver, scheduled by the sender: the caller is the
        // sender's account, in the same sharded context.
        require_internal_sharded_call(env)?;

        // Defensive assumption: Don't credit anything from a potentially
        // incompatible version.
        version.assert_v0()?;

        let transfer_amount = TransferCallResponseValue::validated_used_amount(
            amount,
            on_transfer_result,
        );

        self.internal_deposit(transfer_amount)?;
        let event = FtTransfer {
            old_owner_id: env.predecessor_account_id.clone(),
            new_owner_id: env.current_account_id.clone(),
            amount: transfer_amount,
            memo,
        };
        Ok(ResolvedTransfer { transferred: transfer_amount, event })
    }

    fn sharded_ft_refund_call(
        &mut self,
        env: &CallEnvironment,
        amount: u128,
        version: MethodVersion,
        on_transfer_result: &TransferCallResult,
    ) -> (r: Result<(), TokenError>)
        ensures
            outcome_of(r, final(self).balance) == refund_outcome(
                old(self).balance,
                *env,
                amount,
                version,
                *on_transfer_result,
            ),
            r is Err ==> final(self).balance == old(self).balance,
    {
        require_private(env)?;
        require_internal_sharded_call(env)?;

        // Defensive assumption: Don't refund anything from a potentially
        // incompatible version.
        version.assert_v0()?;

        let unused_amount = TransferCallResponseValue::validated_unused_amount(
            amount,
            on_transfer_result,
        );

        self.internal_deposit(unused_amount)
    }
}

} // verus!
