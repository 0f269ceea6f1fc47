use vstd::prelude::*;

use crate::account_id::AccountId;
use crate::call_receiver::{refund_credit, resolve_credit, validated_response, TransferCallResult};
use crate::core_impl::{
    deposited, receive_outcome, refund_outcome, resolve_outcome, settle_outcome,
    transfer_call_outcome, transfer_outcome, withdrawn,
};
use crate::environment::{internal_sharded_call_check, private_call_check, CallEnvironment};
use crate::method_version::{version_supported, version_zero, MethodVersion};

verus! {

/// A deposit undoes a withdrawal of the same amount, and a withdrawal undoes
/// a deposit.
pub proof fn lemma_deposit_withdraw_round_trip(balance: u128, amount: u128)
    ensures
        deposited(balance, amount) matches Some(b) ==> withdrawn(b, amount) == Some(balance),
        withdrawn(balance, amount) matches Some(b) ==> deposited(b, amount) == Some(balance),
{
}

/// The initial version, which every scheduled call carries, is a version that
/// every method accepts.
pub proof fn lemma_initial_version_accepted()
    ensures
        version_supported(version_zero()),
{
}

/// A sharded transfer moves exactly `amount` from the sender to the receiver:
/// when the receive succeeds, the settlement keeps the sender's new balance
/// and the two balances sum to what they did before; when the receive fails
/// (and so changes nothing on the receiver), the settlement gives the sender
/// back exactly the balance it had.
pub proof fn lemma_sharded_transfer_moves_amount(
    sender_balance: u128,
    receiver_balance: u128,
    sender_env: CallEnvironment,
    receiver_env: CallEnvironment,
    settle_env: CallEnvironment,
    receiver_id: AccountId,
    amount: u128,
    version: MethodVersion,
)
    requires
        transfer_outcome(sender_balance, sender_env, receiver_id, amount, version) is Ok,
        private_call_check(settle_env) is None,
        internal_sharded_call_check(settle_env) is None,
    ensures
        ({
            let sent = transfer_outcome(sender_balance, sender_env, receiver_id, amount, version)->Ok_0;
            &&& sent + amount == sender_balance
            &&& settle_outcome(sent, settle_env, amount, version_zero(), true) == Ok::<u128, crate::error::TokenError>(sender_balance)
            &&& settle_outcome(sent, settle_env, amount, version_zero(), false) == Ok::<u128, crate::error::TokenError>(sent)
            &&& (receive_outcome(receiver_balance, receiver_env, amount, version_zero()) matches Ok(received)
                ==> sent + received == sender_balance + receiver_balance)
        }),
{
}

/// The two transfer-call callbacks read the receiving contract's answer
/// alike: either they keep no answer, and the receiver is credited nothing
/// while the sender gets everything back, or they keep the same answer, and
/// the receiver is credited its `used` part and the sender its `unused` part.
pub proof fn lemma_transfer_call_callbacks_agree(amount: u128, result: TransferCallResult)
    ensures
        (validated_response(amount, result) is None && resolve_credit(amount, result) == 0
            && refund_credit(amount, result) == amount) || (validated_response(amount, result) matches Some(v)
            && resolve_credit(amount, result) == v.used && refund_credit(amount, result) == v.unused),
{
}

/// Whatever the receiving contract answers, what the two transfer-call
/// callbacks credit adds up to exactly the amount sent: no token is lost and
/// none is made, and neither side gets more than the amount.
pub proof fn lemma_transfer_call_credits_add_up(amount: u128, result: TransferCallResult)
    ensures
        resolve_credit(amount, result) + refund_credit(amount, result) == amount,
        resolve_credit(amount, result) <= amount,
        refund_credit(amount, result) <= amount,
{
}

/// The resolve callback, which runs on the receiver and is scheduled by the
/// sender, is accepted from any account running the same sharded code, and
/// credits the receiver what the answer says it used.
pub proof fn lemma_resolve_accepts_sender(
    receiver_balance: u128,
    env: CallEnvironment,
    amount: u128,
    result: TransferCallResult,
)
    requires
        internal_sharded_call_check(env) is None,
        receiver_balance + amount <= u128::MAX,
    ensures
        resolve_outcome(receiver_balance, env, amount, version_zero(), result) == Ok::<
            u128,
            crate::error::TokenError,
        >((receiver_balance + resolve_credit(amount, result)) as u128),
{
}

/// A transfer call keeps the supply: after the sender's withdrawal, the
/// receiver's resolve and the sender's refund, the two balances sum to what
/// they did before, whatever the receiving contract answered.
pub proof fn lemma_transfer_call_conserves_supply(
    sender_balance: u128,
    receiver_balance: u128,
    sender_env: CallEnvironment,
    receiver_env: CallEnvironment,
    refund_env: CallEnvironment,
    amount: u128,
    version: MethodVersion,
    result: TransferCallResult,
)
    requires
        transfer_call_outcome(sender_balance, sender_env, amount, version) is Ok,
        resolve_outcome(receiver_balance, receiver_env, amount, version_zero(), result) is Ok,
        refund_outcome(
            transfer_call_outcome(sender_balance, sender_env, amount, version)->Ok_0,
            refund_env,
            amount,
            version_zero(),
            result,
        ) is Ok,
    ensures
        ({
            let sent = transfer_call_outcome(sender_balance, sender_env, amount, version)->Ok_0;
            let received = resolve_outcome(receiver_balance, receiver_env, amount, version_zero(), result)->Ok_0;
            let refunded = refund_outcome(sent, refund_env, amount, version_zero(), result)->Ok_0;
            refunded + received == sender_balance + receiver_balance
        }),
{
    lemma_transfer_call_credits_add_up(amount, result);
}

/// The sender's refund callback never fails for want of room: after the
/// withdrawal, giving back at most the amount fits in `u128`.
pub proof fn lemma_refund_fits(
    sender_balance: u128,
    sender_env: CallEnvironment,
    refund_env: CallEnvironment,
    amount: u128,
    version: MethodVersion,
    result: TransferCallResult,
)
    requires
        transfer_call_outcome(sender_balance, sender_env, amount, version) is Ok,
        private_call_check(refund_env) is None,
        internal_sharded_call_check(refund_env) is None,
    ensures
        refund_outcome(
            transfer_call_outcome(sender_balance, sender_env, amount, version)->Ok_0,
            refund_env,
            amount,
            version_zero(),
            result,
        ) is Ok,
{
    lemma_transfer_call_credits_add_up(amount, result);
}

/// The callbacks and the receive refuse every call that does not come from
/// the very sharded context the contract runs in.
pub proof fn lemma_foreign_callers_refused(
    balance: u128,
    env: CallEnvironment,
    amount: u128,
    version: MethodVersion,
    receive_failed: bool,
    result: TransferCallResult,
)
    requires
        internal_sharded_call_check(env) is Some,
    ensures
        receive_outcome(balance, env, amount, version) is Err,
        settle_outcome(balance, env, amount, version, receive_failed) is Err,
        resolve_outcome(balance, env, amount, version, result) is Err,
        refund_outcome(balance, env, amount, version, result) is Err,
{
}

/// The balance only grows through incoming deposits: the receive and the
/// callbacks never lower it, and the two outgoing transfers lower it by
/// exactly the amount sent.
pub proof fn lemma_only_transfers_lower_balance(
    balance: u128,
    env: CallEnvironment,
    receiver_id: AccountId,
    amount: u128,
    version: MethodVersion,
    receive_failed: bool,
    result: TransferCallResult,
)
    ensures
        receive_outcome(balance, env, amount, version) matches Ok(b) ==> b >= balance,
        settle_outcome(balance, env, amount, version, receive_failed) matches Ok(b) ==> b >= balance,
        resolve_outcome(balance, env, amount, version, result) matches Ok(b) ==> b >= balance,
        refund_outcome(balance, env, amount, version, result) matches Ok(b) ==> b >= balance,
        transfer_outcome(balance, env, receiver_id, amount, version) matches Ok(b) ==> b + amount
            == balance,
        transfer_call_outcome(balance, env, amount, version) matches Ok(b) ==> b + amount
            == balance,
{
}

} // verus!
