use vstd::prelude::*;

use crate::account_id::AccountId;
use crate::call_receiver::{
    refund_credit, resolve_credit, validated_response, TransferCallResponseValue,
    TransferCallResult,
};
use crate::contract_context::{CodeIdentifierView, ContractContext, ContractContextView};
use crate::core_impl::{
    deposited, initial_supply_check, receive_outcome, refund_outcome, resolve_outcome,
    settle_outcome, transfer_call_outcome, transfer_call_plan, transfer_event, transfer_outcome,
    transfer_plan, withdrawn,
};
use crate::core_root_impl::{balance_of_plan, looked_up_balance};
use crate::environment::{CallEnvironment, GasAllocation, ScheduledMethod};
use crate::error::TokenError;
use crate::method_version::{version_supported, MethodVersion};
use crate::token_core::BalanceLookupResult;

verus! {

/// The call comes from the contract's own account.
pub open spec fn from_own_account(env: CallEnvironment) -> bool {
    env.current_account_id@ == env.predecessor_account_id@
}

/// The caller runs the very sharded context the contract runs in.
pub open spec fn from_same_sharded_code(env: CallEnvironment) -> bool {
    &&& env.current_context@ == env.predecessor_context@
    &&& env.current_context@ is Sharded
}

/// The version `(0, 0)`.
pub open spec fn is_initial_version(version: MethodVersion) -> bool {
    version.standard == 0 && version.contract == 0
}

/// A version is handled exactly when it is `(0, 0)`.
pub proof fn lemma_only_initial_version_handled(version: MethodVersion)
    ensures
        version_supported(version) <==> is_initial_version(version),
{
}

/// A deposit succeeds exactly when the sum fits in `u128`, and adds the
/// amount; a withdrawal succeeds exactly when the balance covers the amount
/// (the whole balance included), and subtracts it.
pub proof fn lemma_deposit_and_withdraw_arithmetic(balance: u128, amount: u128)
    ensures
        deposited(balance, amount) is Some <==> balance + amount <= u128::MAX,
        deposited(balance, amount) matches Some(b) ==> b == balance + amount,
        withdrawn(balance, amount) is Some <==> amount <= balance,
        withdrawn(balance, amount) matches Some(b) ==> b + amount == balance,
{
}

/// A transfer by the holder itself, with one yoctoNEAR, to another account,
/// in a sharded context and at the initial version, succeeds whenever the
/// balance covers the amount (the whole balance included), and lowers the
/// balance by exactly the amount; it is refused when the balance does not.
pub proof fn lemma_transfer_succeeds_when_covered(
    balance: u128,
    env: CallEnvironment,
    receiver_id: AccountId,
    amount: u128,
    version: MethodVersion,
)
    requires
        is_initial_version(version),
        from_own_account(env),
        env.attached_deposit == 1,
        receiver_id@ != env.predecessor_account_id@,
        env.current_context@ is Sharded,
    ensures
        amount <= balance ==> transfer_outcome(balance, env, receiver_id, amount, version) == Ok::<
            u128,
            TokenError,
        >((balance - amount) as u128),
        amount > balance ==> transfer_outcome(balance, env, receiver_id, amount, version) == Err::<
            u128,
            TokenError,
        >(TokenError::BalanceOverflow),
{
}

/// A transfer is refused unless the holder itself makes it, and never goes
/// to the sender itself.
pub proof fn lemma_transfer_only_by_holder_to_other(
    balance: u128,
    env: CallEnvironment,
    receiver_id: AccountId,
    amount: u128,
    version: MethodVersion,
)
    ensures
        !from_own_account(env) ==> transfer_outcome(balance, env, receiver_id, amount, version) is Err,
        receiver_id@ == env.predecessor_account_id@ ==> transfer_outcome(
            balance,
            env,
            receiver_id,
            amount,
            version,
        ) is Err,
        env.attached_deposit != 1 ==> transfer_outcome(balance, env, receiver_id, amount, version) is Err,
{
}

/// A transfer schedules `sharded_ft_receive` of the amount and memo on the
/// receiver, in the contract's own context, then the settlement of the same
/// amount back on the sender's account; both at the initial version.
pub proof fn lemma_transfer_plan_targets(
    env: CallEnvironment,
    receiver_id: AccountId,
    amount: u128,
    memo: Option<String>,
)
    ensures
        ({
            let plan = transfer_plan(env, receiver_id, amount, memo);
            &&& plan.receive.receiver_id == receiver_id
            &&& plan.receive.context == env.current_context
            &&& plan.receive.gas == GasAllocation::UnusedWeight(1)
            &&& plan.receive.method matches ScheduledMethod::ShardedFtReceive { amount: a, memo: m, version: v }
                && a == amount && m == memo && is_initial_version(v)
            &&& plan.settle.receiver_id == env.current_account_id
            &&& plan.settle.context == env.current_context
            &&& plan.settle.method matches ScheduledMethod::SettleShardedFtTransfer { amount: a, version: v }
                && a == amount && is_initial_version(v)
        }),
{
}

/// A transfer call by the holder itself, with one yoctoNEAR, in a sharded
/// context and at the initial version, succeeds whenever the balance covers
/// the amount (the whole balance included), and lowers the balance by exactly
/// the amount; it is refused when the balance does not, and whenever someone
/// else calls.
pub proof fn lemma_transfer_call_succeeds_when_covered(
    balance: u128,
    env: CallEnvironment,
    amount: u128,
    version: MethodVersion,
)
    ensures
        (is_initial_version(version) && from_own_account(env) && env.attached_deposit == 1
            && env.current_context@ is Sharded) ==> {
            &&& amount <= balance ==> transfer_call_outcome(balance, env, amount, version) == Ok::<
                u128,
                TokenError,
            >((balance - amount) as u128)
            &&& amount > balance ==> transfer_call_outcome(balance, env, amount, version) == Err::<
                u128,
                TokenError,
            >(TokenError::BalanceOverflow)
        },
        !from_own_account(env) ==> transfer_call_outcome(balance, env, amount, version) is Err,
        env.attached_deposit != 1 ==> transfer_call_outcome(balance, env, amount, version) is Err,
{
}

/// A transfer call tells the receiving contract who sent how much, then
/// resolves the same amount on the receiver in the token's own context, and
/// refunds on the sender's own account.
pub proof fn lemma_transfer_call_plan_targets(
    env: CallEnvironment,
    receiver_id: AccountId,
    target_contract_context: ContractContext,
    amount: u128,
    memo: Option<String>,
    msg: String,
)
    ensures
        ({
            let plan = transfer_call_plan(env, receiver_id, target_contract_context, amount, memo, msg);
            &&& plan.on_transfer.receiver_id == receiver_id
            &&& plan.on_transfer.context == target_contract_context
            &&& plan.on_transfer.method matches ScheduledMethod::ShardedFtOnTransfer {
                sender_id: s,
                amount: a,
                msg: m,
                version: v,
            } && s == env.predecessor_account_id && a == amount && m == msg && is_initial_version(v)
            &&& plan.deposit.receiver_id == receiver_id
            &&& plan.deposit.context == env.current_context
            &&& plan.deposit.method matches ScheduledMethod::ShardedFtResolveCall {
                amount: a,
                memo: m,
                version: v,
            } && a == amount && m == memo && is_initial_version(v)
            &&& plan.refund.receiver_id == env.current_account_id
            &&& plan.refund.context == env.current_context
            &&& plan.refund.method matches ScheduledMethod::ShardedFtRefundCall { amount: a, version: v }
                && a == amount && is_initial_version(v)
        }),
{
}

/// A receive from the same sharded code at the initial version succeeds on
/// every balance, an empty one included, unless the sum overflows, and adds
/// exactly the amount; its event records the amount moving from the caller
/// to this account.
pub proof fn lemma_receive_always_lands(
    balance: u128,
    env: CallEnvironment,
    amount: u128,
    version: MethodVersion,
    memo: Option<String>,
)
    requires
        from_same_sharded_code(env),
        is_initial_version(version),
    ensures
        balance + amount <= u128::MAX ==> receive_outcome(balance, env, amount, version) == Ok::<
            u128,
            TokenError,
        >((balance + amount) as u128),
        balance + amount > u128::MAX ==> receive_outcome(balance, env, amount, version) == Err::<
            u128,
            TokenError,
        >(TokenError::BalanceOverflow),
        transfer_event(env, amount, memo).old_owner_id == env.predecessor_account_id,
        transfer_event(env, amount, memo).new_owner_id == env.current_account_id,
        transfer_event(env, amount, memo).amount == amount,
        transfer_event(env, amount, memo).memo == memo,
{
}

/// The settlement on the holder's own account keeps the balance when the
/// receive succeeded, and gives the amount back when it failed.
pub proof fn lemma_settle_gives_back_only_on_failure(
    balance: u128,
    env: CallEnvironment,
    amount: u128,
    version: MethodVersion,
)
    requires
        from_own_account(env),
        from_same_sharded_code(env),
        is_initial_version(version),
    ensures
        settle_outcome(balance, env, amount, version, false) == Ok::<u128, TokenError>(balance),
        balance + amount <= u128::MAX ==> settle_outcome(balance, env, amount, version, true)
            == Ok::<u128, TokenError>((balance + amount) as u128),
{
}

/// The receiving contract's answer is kept exactly when its two parts add up
/// to the amount sent; then the receiver is credited the `used` part and the
/// sender the `unused` part, whatever the split (all used, none used, or in
/// between). Any other answer credits the receiver nothing and the sender
/// everything.
pub proof fn lemma_answers_that_add_up_are_kept(amount: u128, answer: TransferCallResponseValue)
    ensures
        answer.used + answer.unused == amount ==> {
            &&& validated_response(amount, TransferCallResult::Returned(answer)) == Some(answer)
            &&& resolve_credit(amount, TransferCallResult::Returned(answer)) == answer.used
            &&& refund_credit(amount, TransferCallResult::Returned(answer)) == answer.unused
        },
        answer.used + answer.unused != amount ==> {
            &&& validated_response(amount, TransferCallResult::Returned(answer)) is None
            &&& resolve_credit(amount, TransferCallResult::Returned(answer)) == 0
            &&& refund_credit(amount, TransferCallResult::Returned(answer)) == amount
        },
        resolve_credit(amount, TransferCallResult::Failed) == 0,
        refund_credit(amount, TransferCallResult::Failed) == amount,
        resolve_credit(amount, TransferCallResult::Malformed) == 0,
        refund_credit(amount, TransferCallResult::Malformed) == amount,
{
}

/// The resolve callback from the same sharded code, at the initial version,
/// credits the receiver exactly what it used, from any caller account; the
/// refund on the holder's own account gives back exactly what was unused.
pub proof fn lemma_callbacks_credit_the_answer(
    balance: u128,
    resolve_env: CallEnvironment,
    refund_env: CallEnvironment,
    amount: u128,
    version: MethodVersion,
    answer: TransferCallResponseValue,
)
    requires
        from_same_sharded_code(resolve_env),
        from_same_sharded_code(refund_env),
        from_own_account(refund_env),
        is_initial_version(version),
        answer.used + answer.unused == amount,
        balance + amount <= u128::MAX,
    ensures
        resolve_outcome(balance, resolve_env, amount, version, TransferCallResult::Returned(answer))
            == Ok::<u128, TokenError>((balance + answer.used) as u128),
        refund_outcome(balance, refund_env, amount, version, TransferCallResult::Returned(answer))
            == Ok::<u128, TokenError>((balance + answer.unused) as u128),
{
}

/// Minting is accepted exactly on the admin instance: called by a root
/// contract, on that contract's own account, running the sharded code that
/// account deployed.
pub proof fn lemma_minting_only_on_admin_instance(env: CallEnvironment)
    ensures
        initial_supply_check(env) is None <==> {
            &&& env.predecessor_context@ is Root
            &&& env.current_context@ == ContractContextView::Sharded(
                CodeIdentifierView::AccountId(env.predecessor_account_id@),
            )
            &&& from_own_account(env)
        },
{
}

/// Looking up any account's balance asks that very account, in the sharded
/// context of the code this root account deployed, at the initial version,
/// and answers back on the root itself.
pub proof fn lemma_balance_lookup_targets_holder(env: CallEnvironment, account_id: AccountId)
    ensures
        ({
            let plan = balance_of_plan(env, account_id);
            &&& plan.lookup.receiver_id == account_id
            &&& plan.lookup.context@ == ContractContextView::Sharded(
                CodeIdentifierView::AccountId(env.current_account_id@),
            )
            &&& plan.lookup.method matches ScheduledMethod::Balance { version: v } && is_initial_version(v)
            &&& plan.resolve.receiver_id == env.current_account_id
            &&& plan.resolve.method is FtResolveBalanceOf
        }),
{
}

/// The balance lookup answers the holder's balance, and 0 for an account
/// that holds no token.
pub proof fn lemma_balance_lookup_answers(balance: u128)
    ensures
        looked_up_balance(BalanceLookupResult::Returned(balance)) == balance,
        looked_up_balance(BalanceLookupResult::Failed) == 0,
        looked_up_balance(BalanceLookupResult::Malformed) == 0,
{
}

/// Every callback and the receive refuse a caller that does not run the very
/// sharded code the contract runs; the settlement and the refund also refuse
/// any account but the holder's own; and no outgoing transfer happens outside
/// a sharded context.
pub proof fn lemma_foreign_calls_refused(
    balance: u128,
    env: CallEnvironment,
    receiver_id: AccountId,
    amount: u128,
    version: MethodVersion,
    receive_failed: bool,
    result: TransferCallResult,
)
    ensures
        !from_same_sharded_code(env) ==> {
            &&& receive_outcome(balance, env, amount, version) is Err
            &&& settle_outcome(balance, env, amount, version, receive_failed) is Err
            &&& resolve_outcome(balance, env, amount, version, result) is Err
            &&& refund_outcome(balance, env, amount, version, result) is Err
        },
        !from_own_account(env) ==> {
            &&& settle_outcome(balance, env, amount, version, receive_failed) is Err
            &&& refund_outcome(balance, env, amount, version, result) is Err
        },
        !(env.current_context@ is Sharded) ==> {
            &&& transfer_outcome(balance, env, receiver_id, amount, version) is Err
            &&& transfer_call_outcome(balance, env, amount, version) is Err
        },
        !is_initial_version(version) ==> {
            &&& receive_outcome(balance, env, amount, version) is Err
            &&& settle_outcome(balance, env, amount, version, receive_failed) is Err
            &&& resolve_outcome(balance, env, amount, version, result) is Err
            &&& refund_outcome(balance, env, amount, version, result) is Err
            &&& transfer_outcome(balance, env, receiver_id, amount, version) is Err
            &&& transfer_call_outcome(balance, env, amount, version) is Err
        },
{
}

} // verus!
