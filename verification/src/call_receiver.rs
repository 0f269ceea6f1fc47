use vstd::prelude::*;

verus! {

/// What `sharded_ft_on_transfer` on the receiving contract answers: how much of
/// the amount it used and how much it leaves unused.
#[derive(Clone, Copy, Debug, PartialEq, Eq, Structural)]
pub struct TransferCallResponseValue {
    pub used: u128,
    pub unused: u128,
}

/// The result of `sharded_ft_on_transfer` as the transfer-call callbacks read it.
#[derive(Debug)]
pub enum TransferCallResult {
    /// The call failed.
    Failed,
    /// The call returned bytes that are no `TransferCallResponseValue`.
    Malformed,
    /// The call returned this response.
    Returned(TransferCallResponseValue),
}

/// The response that `read_and_validate` keeps: a returned response whose two
/// parts sum, within `u128`, to exactly `amount`. Anything else (a failure,
/// malformed bytes, parts that do not add up) is treated as a failure.
pub open spec fn validated_response(amount: u128, result: TransferCallResult) -> Option<
    TransferCallResponseValue,
> {
    match result {
        TransferCallResult::Returned(v) => if v.unused + v.used == amount {
            Some(v)
        } else {
            None
        },
        _ => None,
    }
}

/// What the receiver is credited in `sharded_ft_resolve_call`: the `used`
/// part of a kept response, and nothing when no response is kept.
pub open spec fn resolve_credit(amount: u128, result: TransferCallResult) -> u128 {
    match validated_response(amount, result) {
        Some(v) => v.used,
        None => 0,
    }
}

/// What the sender is credited back in `sharded_ft_refund_call`: the `unused`
/// part of a kept response, and the whole amount when no response is kept.
pub open spec fn refund_credit(amount: u128, result: TransferCallResult) -> u128 {
    match validated_response(amount, result) {
        Some(v) => v.unused,
        None => amount,
    }
}

impl TransferCallResponseValue {
    /// Reads the response of `sharded_ft_on_transfer` and checks it against
    /// the amount that was sent.
    pub fn read_and_validate(amount: u128, result: &TransferCallResult) -> (r: Option<Self>)
        ensures
            r == validated_response(amount, *result),
    {
        match result {
            TransferCallResult::Returned(response) => {
                let expected_amount = match response.unused.checked_add(response.used) {
                    Some(sum) => sum,
                    None => return None,
                };
                // The answer cannot be trusted: it must add up to the amount.
                if amount == expected_amount {
                    Some(*response)
                } else {
                    None
                }
            },
            TransferCallResult::Malformed => None,
            TransferCallResult::Failed => None,
        }
    }

    /// The amount to give back to the sender.
    pub fn validated_unused_amount(amount: u128, result: &TransferCallResult) -> (r: u128)
        ensures
            r == refund_credit(amount, *result),
    {
        match Self::read_and_validate(amount, result) {
            Some(response) => response.unused,
            // invalid input, refunding the full amount
            None => amount,
        }
    }

    /// The amount to credit to the receiver.
    pub fn validated_used_amount(amount: u128, result: &TransferCallResult) -> (r: u128)
        ensures
            r == resolve_credit(amount, *result),
    {
        match Self::read_and_validate(amount, result) {
            Some(response) => response.used,
            // invalid input, transferring nothing
            None => 0,
        }
    }
}

} // verus!
