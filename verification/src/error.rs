use vstd::prelude::*;

verus! {

/// Why a contract call is refused. The host aborts a refused call, so none of
/// its effects on the state remain.
#[derive(Clone, Copy, Debug, PartialEq, Eq, Structural)]
pub enum TokenError {
    /// The caller may not make this call.
    AccessDenied,
    /// The contract does not run in a sharded context.
    ShardedContextRequired,
    /// The balance would leave the range of `u128`.
    BalanceOverflow,
    /// The method version is not one this implementation handles.
    UnsupportedVersion,
    /// The call does not carry exactly one yoctoNEAR.
    OneYoctoRequired,
    /// Sender and receiver of a transfer are the same account.
    SelfTransfer,
}

/// The text the host aborts a refused call with.
pub open spec fn error_message(e: TokenError) -> Seq<char> {
    match e {
        TokenError::AccessDenied => "Access denied"@,
        TokenError::ShardedContextRequired => "Must be sharded context"@,
        TokenError::BalanceOverflow => "Balance overflow"@,
        TokenError::UnsupportedVersion => "Unsupported version"@,
        TokenError::OneYoctoRequired => "Requires attached deposit of exactly 1 yoctoNEAR"@,
        TokenError::SelfTransfer => "Sender and receiver should be different"@,
    }
}

impl TokenError {
    /// The text the host aborts a refused call with.
    pub fn message(&self) -> (m: &'static str)
        ensures
            m@ == error_message(*self),
    {
        match self {
            TokenError::AccessDenied => "Access denied",
            TokenError::ShardedContextRequired => "Must be sharded context",
            TokenError::BalanceOverflow => "Balance overflow",
            TokenError::UnsupportedVersion => "Unsupported version",
            TokenError::OneYoctoRequired => "Requires attached deposit of exactly 1 yoctoNEAR",
            TokenError::SelfTransfer => "Sender and receiver should be different",
        }
    }
}

} // verus!
