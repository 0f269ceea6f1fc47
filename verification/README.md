# sharded_ft

A sharded fungible token, verified with Verus. Each holder runs the same
shared contract code on its own account and keeps its own balance; tokens move
between holders through chains of cross-contract calls.

The contract methods are decision functions. What the host tells about a call
(`CallEnvironment`) and the result of the call a callback follows come in as
plain values; the new balance, the calls to schedule and the events to emit
come out as plain values. A refused call returns a `TokenError` and changes
nothing.

- `src/account_id.rs`: NEAR account ids, checked by `near-account-id`.
- `src/contract_context.rs`: root and sharded contract contexts.
- `src/method_version.rs`: the method version every call carries.
- `src/environment.rs`: the call environment, scheduled calls, events.
- `src/call_receiver.rs`: reading the receiver's answer to a transfer call.
- `src/token_core.rs`: the contract interfaces.
- `src/core_impl.rs`: the holder contract and the model of each method.
- `src/core_root_impl.rs`: the root contract.
- `src/laws.rs`: properties across methods: a transfer moves exactly the
  amount, a transfer call's two callbacks credit exactly the amount between
  them whatever the receiver answers, foreign callers are refused, deposits
  and withdrawals undo each other.
- `app/lib.rs`: JSON decoding of the receiver's answer and of a holder's
  balance, the event log line, and conversions to and from `near_account_id::AccountId`.
