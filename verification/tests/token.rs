use sharded_ft::{
    AccountId, BalanceLookupResult, CallEnvironment, ContractContext, GasAllocation, GlobalContractCodeIdentifier,
    MethodVersion, PromiseResult, ScheduledMethod, ShardedFungibleToken,
    ShardedFungibleTokenCore, ShardedFungibleTokenCoreRoot, ShardedFungibleTokenRoot, TokenError,
    TransferCallResponseValue, TransferCallResult,
};

fn account(id: &str) -> AccountId {
    AccountId::try_from_string(id.to_string()).unwrap()
}

fn ft_context() -> ContractContext {
    ContractContext::Sharded { code_id: GlobalContractCodeIdentifier::AccountId(account("ft.near")) }
}

/// A call that `caller` (running the same sharded code) makes to `me`.
fn sharded_env(me: &str, caller: &str, deposit: u128) -> CallEnvironment {
    CallEnvironment {
        current_account_id: account(me),
        predecessor_account_id: account(caller),
        current_context: ft_context(),
        predecessor_context: ft_context(),
        attached_deposit: deposit,
    }
}

fn holder(balance: u128) -> ShardedFungibleToken {
    ShardedFungibleToken { balance }
}

fn v(standard: u32, contract: u32) -> MethodVersion {
    MethodVersion { standard, contract }
}

#[test]
fn account_ids_follow_the_rules() {
    assert!(AccountId::try_from_string("alice.near".to_string()).is_some());
    assert!(AccountId::try_from_string("1_4m_n0t-al1c3.near".to_string()).is_some());
    assert!(AccountId::try_from_string("a".to_string()).is_none());
    assert!(AccountId::try_from_string("Alice.near".to_string()).is_none());
    assert!(AccountId::try_from_string("alice..near".to_string()).is_none());
    assert!(AccountId::try_from_string("_alice".to_string()).is_none());
    assert!(AccountId::try_from_string("alice.".to_string()).is_none());
    assert!(AccountId::try_from_string("a".repeat(65)).is_none());
    assert!(AccountId::try_from_string("a".repeat(64)).is_some());
    assert!(AccountId::try_from_string("ƒelicia.near".to_string()).is_none());
    assert_eq!(account("bob.near").as_str(), "bob.near");
    assert_eq!(account("bob.near"), account("bob.near"));
    assert_ne!(account("bob.near"), account("carol.near"));
}

#[test]
fn contexts_compare_by_value() {
    assert_eq!(ft_context(), ft_context());
    assert_ne!(ft_context(), ContractContext::Root);
    let by_hash = ContractContext::Sharded {
        code_id: GlobalContractCodeIdentifier::CodeHash("abc".to_string()),
    };
    assert_ne!(ft_context(), by_hash);
    assert!(ft_context().is_sharded());
    assert!(!ContractContext::Root.is_sharded());
}

#[test]
fn versions() {
    let v0 = MethodVersion::v0();
    assert_eq!((v0.standard, v0.contract), (0, 0));
    assert_eq!(v0.assert_v0(), Ok(()));
    assert_eq!(v(0, 7).assert_v0(), Err(TokenError::UnsupportedVersion));
    assert_eq!(v(1, 0).assert_v0(), Err(TokenError::UnsupportedVersion));
}

#[test]
fn error_messages() {
    assert_eq!(TokenError::AccessDenied.message(), "Access denied");
    assert_eq!(TokenError::BalanceOverflow.message(), "Balance overflow");
    assert_eq!(TokenError::ShardedContextRequired.message(), "Must be sharded context");
    assert_eq!(TokenError::UnsupportedVersion.message(), "Unsupported version");
    assert_eq!(TokenError::SelfTransfer.message(), "Sender and receiver should be different");
    assert_eq!(
        TokenError::OneYoctoRequired.message(),
        "Requires attached deposit of exactly 1 yoctoNEAR"
    );
}

#[test]
fn new_holder_is_empty() {
    assert_eq!(ShardedFungibleToken::new().balance, 0);
    assert_eq!(ShardedFungibleToken::default().balance, 0);
}

#[test]
fn initial_supply_only_on_admin_instance() {
    let admin = CallEnvironment {
        current_account_id: account("ft.near"),
        predecessor_account_id: account("ft.near"),
        current_context: ft_context(),
        predecessor_context: ContractContext::Root,
        attached_deposit: 0,
    };
    assert_eq!(ShardedFungibleToken::new_with_initial_supply(&admin, 1000).unwrap().balance, 1000);

    // caller not a root contract
    let mut env = sharded_env("ft.near", "ft.near", 0);
    assert_eq!(
        ShardedFungibleToken::new_with_initial_supply(&env, 1000).unwrap_err(),
        TokenError::AccessDenied
    );
    // code deployed by another account
    env.predecessor_context = ContractContext::Root;
    env.predecessor_account_id = account("evil.near");
    assert_eq!(
        ShardedFungibleToken::new_with_initial_supply(&env, 1000).unwrap_err(),
        TokenError::AccessDenied
    );
    // another account running the admin's code
    let mut other_instance = CallEnvironment {
        current_account_id: account("bob.near"),
        predecessor_account_id: account("ft.near"),
        current_context: ft_context(),
        predecessor_context: ContractContext::Root,
        attached_deposit: 0,
    };
    assert_eq!(
        ShardedFungibleToken::new_with_initial_supply(&other_instance, 1000).unwrap_err(),
        TokenError::AccessDenied
    );
    other_instance.current_account_id = account("ft.near");
    assert!(ShardedFungibleToken::new_with_initial_supply(&other_instance, 1000).is_ok());
    // not sharded at all
    let mut root = admin;
    root.current_context = ContractContext::Root;
    assert_eq!(
        ShardedFungibleToken::new_with_initial_supply(&root, 1000).unwrap_err(),
        TokenError::AccessDenied
    );
}

#[test]
fn deposit_and_withdraw() {
    let mut t = holder(10);
    assert_eq!(t.internal_deposit(5), Ok(()));
    assert_eq!(t.balance, 15);
    assert_eq!(t.internal_withdraw(15), Ok(()));
    assert_eq!(t.balance, 0);
    assert_eq!(t.internal_withdraw(1), Err(TokenError::BalanceOverflow));
    assert_eq!(t.balance, 0);
    let mut full = holder(u128::MAX);
    assert_eq!(full.internal_deposit(1), Err(TokenError::BalanceOverflow));
    assert_eq!(full.balance, u128::MAX);
}

#[test]
fn deposit_withdraw_round_trip() {
    let mut t = holder(42);
    t.internal_deposit(8).unwrap();
    t.internal_withdraw(8).unwrap();
    assert_eq!(t.balance, 42);
    t.internal_withdraw(40).unwrap();
    t.internal_deposit(40).unwrap();
    assert_eq!(t.balance, 42);
}

#[test]
fn balance_query() {
    let t = holder(77);
    assert_eq!(t.balance(MethodVersion::v0()), Ok(77));
    assert_eq!(t.balance(v(2, 0)), Err(TokenError::UnsupportedVersion));
}

#[test]
fn transfer_schedules_receive_then_settle() {
    let mut t = holder(100);
    let env = sharded_env("alice.near", "alice.near", 1);
    let plan = t
        .sharded_ft_transfer(&env, account("bob.near"), 30, Some("hi".to_string()), MethodVersion::v0())
        .unwrap();
    assert_eq!(t.balance, 70);

    assert_eq!(plan.receive.receiver_id, account("bob.near"));
    assert_eq!(plan.receive.context, ft_context());
    assert_eq!(plan.receive.gas, GasAllocation::UnusedWeight(1));
    match plan.receive.method {
        ScheduledMethod::ShardedFtReceive { amount, memo, version } => {
            assert_eq!(amount, 30);
            assert_eq!(memo, Some("hi".to_string()));
            assert_eq!((version.standard, version.contract), (0, 0));
        }
        other => panic!("unexpected {:?}", other),
    }
    assert_eq!(plan.settle.receiver_id, account("alice.near"));
    assert_eq!(plan.settle.context, ft_context());
    assert_eq!(plan.settle.gas, GasAllocation::Static(1_000_000_000_000));
    match plan.settle.method {
        ScheduledMethod::SettleShardedFtTransfer { amount, version } => {
            assert_eq!(amount, 30);
            assert_eq!(version.standard, 0);
        }
        other => panic!("unexpected {:?}", other),
    }
}

#[test]
fn transfer_refusals_change_nothing() {
    let bob = || account("bob.near");
    let v0 = MethodVersion::v0;

    let mut t = holder(100);
    let env = sharded_env("alice.near", "alice.near", 1);
    assert_eq!(t.sharded_ft_transfer(&env, bob(), 1, None, v(1, 0)).unwrap_err(), TokenError::UnsupportedVersion);

    let other_caller = sharded_env("alice.near", "carol.near", 1);
    assert_eq!(t.sharded_ft_transfer(&other_caller, bob(), 1, None, v0()).unwrap_err(), TokenError::AccessDenied);

    let no_yocto = sharded_env("alice.near", "alice.near", 0);
    assert_eq!(t.sharded_ft_transfer(&no_yocto, bob(), 1, None, v0()).unwrap_err(), TokenError::OneYoctoRequired);

    assert_eq!(
        t.sharded_ft_transfer(&env, account("alice.near"), 1, None, v0()).unwrap_err(),
        TokenError::SelfTransfer
    );

    assert_eq!(t.sharded_ft_transfer(&env, bob(), 101, None, v0()).unwrap_err(), TokenError::BalanceOverflow);

    let mut root = sharded_env("alice.near", "alice.near", 1);
    root.current_context = ContractContext::Root;
    assert_eq!(t.sharded_ft_transfer(&root, bob(), 1, None, v0()).unwrap_err(), TokenError::ShardedContextRequired);

    // the overflow check comes before the context check
    assert_eq!(t.sharded_ft_transfer(&root, bob(), 101, None, v0()).unwrap_err(), TokenError::BalanceOverflow);

    assert_eq!(t.balance, 100);
}

#[test]
fn receive_credits_and_emits() {
    let mut t = holder(5);
    let env = sharded_env("bob.near", "alice.near", 0);
    let event = t.sharded_ft_receive(&env, 30, Some("m".to_string()), MethodVersion::v0()).unwrap();
    assert_eq!(t.balance, 35);
    assert_eq!(event.old_owner_id, account("alice.near"));
    assert_eq!(event.new_owner_id, account("bob.near"));
    assert_eq!(event.amount, 30);
    assert_eq!(event.memo, Some("m".to_string()));
}

#[test]
fn receive_refuses_foreign_callers() {
    let mut t = holder(5);
    let mut env = sharded_env("bob.near", "alice.near", 0);
    env.predecessor_context = ContractContext::Sharded {
        code_id: GlobalContractCodeIdentifier::AccountId(account("evil.near")),
    };
    assert_eq!(t.sharded_ft_receive(&env, 30, None, MethodVersion::v0()).unwrap_err(), TokenError::AccessDenied);

    env.current_context = ContractContext::Root;
    env.predecessor_context = ContractContext::Root;
    assert_eq!(
        t.sharded_ft_receive(&env, 30, None, MethodVersion::v0()).unwrap_err(),
        TokenError::ShardedContextRequired
    );

    let env = sharded_env("bob.near", "alice.near", 0);
    assert_eq!(t.sharded_ft_receive(&env, 30, None, v(3, 0)).unwrap_err(), TokenError::UnsupportedVersion);
    assert_eq!(
        t.sharded_ft_receive(&env, u128::MAX, None, MethodVersion::v0()).unwrap_err(),
        TokenError::BalanceOverflow
    );
    assert_eq!(t.balance, 5);
}

#[test]
fn sharded_transfer_moves_exactly_the_amount() {
    let mut alice = holder(100);
    let mut bob = holder(20);
    let alice_env = sharded_env("alice.near", "alice.near", 1);
    let bob_env = sharded_env("bob.near", "alice.near", 0);
    let settle_env = sharded_env("alice.near", "alice.near", 0);

    alice.sharded_ft_transfer(&alice_env, account("bob.near"), 30, None, MethodVersion::v0()).unwrap();
    bob.sharded_ft_receive(&bob_env, 30, None, MethodVersion::v0()).unwrap();
    alice
        .settle_sharded_ft_transfer(&settle_env, 30, MethodVersion::v0(), &PromiseResult::Successful(vec![]))
        .unwrap();
    assert_eq!((alice.balance, bob.balance), (70, 50));
}

#[test]
fn failed_receive_gives_the_amount_back() {
    let mut alice = holder(100);
    let alice_env = sharded_env("alice.near", "alice.near", 1);
    let settle_env = sharded_env("alice.near", "alice.near", 0);
    alice.sharded_ft_transfer(&alice_env, account("bob.near"), 30, None, MethodVersion::v0()).unwrap();
    assert_eq!(alice.balance, 70);
    alice.settle_sharded_ft_transfer(&settle_env, 30, MethodVersion::v0(), &PromiseResult::Failed).unwrap();
    assert_eq!(alice.balance, 100);
}

#[test]
fn settle_refusals() {
    let mut t = holder(70);
    let from_other = sharded_env("alice.near", "bob.near", 0);
    assert_eq!(
        t.settle_sharded_ft_transfer(&from_other, 30, MethodVersion::v0(), &PromiseResult::Failed).unwrap_err(),
        TokenError::AccessDenied
    );
    let mut root = sharded_env("alice.near", "alice.near", 0);
    root.current_context = ContractContext::Root;
    root.predecessor_context = ContractContext::Root;
    assert_eq!(
        t.settle_sharded_ft_transfer(&root, 30, MethodVersion::v0(), &PromiseResult::Failed).unwrap_err(),
        TokenError::ShardedContextRequired
    );
    let env = sharded_env("alice.near", "alice.near", 0);
    assert_eq!(
        t.settle_sharded_ft_transfer(&env, 30, v(1, 1), &PromiseResult::Failed).unwrap_err(),
        TokenError::UnsupportedVersion
    );
    assert_eq!(t.balance, 70);
}

fn returned(used: u128, unused: u128) -> TransferCallResult {
    TransferCallResult::Returned(TransferCallResponseValue { used, unused })
}

#[test]
fn transfer_call_schedules_three_calls() {
    let mut t = holder(100);
    let env = sharded_env("alice.near", "alice.near", 1);
    let target = ContractContext::Root;
    let plan = t
        .sharded_ft_transfer_call(
            &env,
            account("shop.near"),
            target,
            40,
            Some("memo".to_string()),
            "buy".to_string(),
            MethodVersion::v0(),
        )
        .unwrap();
    assert_eq!(t.balance, 60);

    assert_eq!(plan.on_transfer.receiver_id, account("shop.near"));
    assert_eq!(plan.on_transfer.context, ContractContext::Root);
    assert_eq!(plan.on_transfer.gas, GasAllocation::UnusedWeight(1));
    match plan.on_transfer.method {
        ScheduledMethod::ShardedFtOnTransfer { sender_id, amount, msg, version } => {
            assert_eq!(sender_id, account("alice.near"));
            assert_eq!(amount, 40);
            assert_eq!(msg, "buy");
            assert_eq!(version.standard, 0);
        }
        other => panic!("unexpected {:?}", other),
    }
    assert_eq!(plan.deposit.receiver_id, account("shop.near"));
    assert_eq!(plan.deposit.context, ft_context());
    assert_eq!(plan.deposit.gas, GasAllocation::Static(1_000_000_000_000));
    match plan.deposit.method {
        ScheduledMethod::ShardedFtResolveCall { amount, memo, .. } => {
            assert_eq!(amount, 40);
            assert_eq!(memo, Some("memo".to_string()));
        }
        other => panic!("unexpected {:?}", other),
    }
    assert_eq!(plan.refund.receiver_id, account("alice.near"));
    assert_eq!(plan.refund.context, ft_context());
    match plan.refund.method {
        ScheduledMethod::ShardedFtRefundCall { amount, .. } => assert_eq!(amount, 40),
        other => panic!("unexpected {:?}", other),
    }
}

#[test]
fn transfer_call_refusals() {
    let mut t = holder(100);
    let shop = || account("shop.near");
    let env = sharded_env("alice.near", "alice.near", 1);
    assert_eq!(
        t.sharded_ft_transfer_call(&env, shop(), ContractContext::Root, 1, None, String::new(), v(1, 0)).unwrap_err(),
        TokenError::UnsupportedVersion
    );
    let foreign = sharded_env("alice.near", "mallory.near", 1);
    assert_eq!(
        t.sharded_ft_transfer_call(&foreign, shop(), ContractContext::Root, 1, None, String::new(), MethodVersion::v0())
            .unwrap_err(),
        TokenError::AccessDenied
    );
    let no_yocto = sharded_env("alice.near", "alice.near", 2);
    assert_eq!(
        t.sharded_ft_transfer_call(&no_yocto, shop(), ContractContext::Root, 1, None, String::new(), MethodVersion::v0())
            .unwrap_err(),
        TokenError::OneYoctoRequired
    );
    let mut root = sharded_env("alice.near", "alice.near", 1);
    root.current_context = ContractContext::Root;
    assert_eq!(
        t.sharded_ft_transfer_call(&root, shop(), ContractContext::Root, 1000, None, String::new(), MethodVersion::v0())
            .unwrap_err(),
        TokenError::ShardedContextRequired
    );
    assert_eq!(
        t.sharded_ft_transfer_call(&env, shop(), ContractContext::Root, 101, None, String::new(), MethodVersion::v0())
            .unwrap_err(),
        TokenError::BalanceOverflow
    );
    assert_eq!(t.balance, 100);
}

#[test]
fn read_and_validate_answers() {
    assert!(TransferCallResponseValue::read_and_validate(10, &TransferCallResult::Failed).is_none());
    assert!(TransferCallResponseValue::read_and_validate(10, &TransferCallResult::Malformed).is_none());
    // an answer whose parts add up to the amount is kept
    assert_eq!(
        TransferCallResponseValue::read_and_validate(10, &returned(7, 3)),
        Some(TransferCallResponseValue { used: 7, unused: 3 })
    );
    // answers that do not add up, or overflow, are treated as failures
    assert!(TransferCallResponseValue::read_and_validate(10, &returned(7, 4)).is_none());
    assert!(TransferCallResponseValue::read_and_validate(10, &returned(0, 1000)).is_none());
    assert!(TransferCallResponseValue::read_and_validate(10, &returned(u128::MAX, 11)).is_none());

    assert_eq!(TransferCallResponseValue::validated_used_amount(10, &returned(7, 3)), 7);
    assert_eq!(TransferCallResponseValue::validated_unused_amount(10, &returned(7, 3)), 3);
    assert_eq!(TransferCallResponseValue::validated_used_amount(10, &returned(7, 4)), 0);
    assert_eq!(TransferCallResponseValue::validated_unused_amount(10, &returned(7, 4)), 10);
    assert_eq!(TransferCallResponseValue::validated_used_amount(10, &TransferCallResult::Failed), 0);
    assert_eq!(TransferCallResponseValue::validated_unused_amount(10, &TransferCallResult::Failed), 10);
}

#[test]
fn resolve_runs_on_receiver_called_by_sender() {
    // the resolve callback runs on shop.near and is scheduled by alice.near
    let mut receiver = holder(5);
    let resolve_env = sharded_env("shop.near", "alice.near", 0);
    let resolved = receiver
        .sharded_ft_resolve_call(&resolve_env, 10, Some("x".to_string()), MethodVersion::v0(), &returned(7, 3))
        .unwrap();
    assert_eq!(resolved.transferred, 7);
    assert_eq!(receiver.balance, 12);
    assert_eq!(resolved.event.amount, 7);
    assert_eq!(resolved.event.old_owner_id, account("alice.near"));
    assert_eq!(resolved.event.new_owner_id, account("shop.near"));
    assert_eq!(resolved.event.memo, Some("x".to_string()));

    let mut sender = holder(0);
    let refund_env = sharded_env("alice.near", "alice.near", 0);
    sender.sharded_ft_refund_call(&refund_env, 10, MethodVersion::v0(), &returned(7, 3)).unwrap();
    assert_eq!(sender.balance, 3);
}

#[test]
fn bad_answer_transfers_nothing() {
    let mut receiver = holder(5);
    let resolved = receiver
        .sharded_ft_resolve_call(&sharded_env("shop.near", "alice.near", 0), 10, None, MethodVersion::v0(), &returned(0, 1000))
        .unwrap();
    assert_eq!(resolved.transferred, 0);
    assert_eq!(receiver.balance, 5);
    let mut sender = holder(90);
    sender
        .sharded_ft_refund_call(&sharded_env("alice.near", "alice.near", 0), 10, MethodVersion::v0(), &returned(0, 1000))
        .unwrap();
    assert_eq!(sender.balance, 100);
}

#[test]
fn transfer_call_conserves_supply() {
    for answer in [returned(25, 15), returned(40, 0), returned(0, 40), returned(7, 4), TransferCallResult::Failed, TransferCallResult::Malformed] {
        let mut alice = holder(100);
        let mut shop = holder(7);
        let env = sharded_env("alice.near", "alice.near", 1);
        alice
            .sharded_ft_transfer_call(&env, account("shop.near"), ContractContext::Root, 40, None, "m".to_string(), MethodVersion::v0())
            .unwrap();
        assert_eq!(alice.balance, 60);
        shop.sharded_ft_resolve_call(&sharded_env("shop.near", "alice.near", 0), 40, None, MethodVersion::v0(), &answer)
            .unwrap();
        alice
            .sharded_ft_refund_call(&sharded_env("alice.near", "alice.near", 0), 40, MethodVersion::v0(), &answer)
            .unwrap();
        assert_eq!(alice.balance + shop.balance, 107);
    }
    // the exact split of a valid answer
    let mut alice = holder(100);
    let mut shop = holder(7);
    let env = sharded_env("alice.near", "alice.near", 1);
    alice
        .sharded_ft_transfer_call(&env, account("shop.near"), ContractContext::Root, 40, None, "m".to_string(), MethodVersion::v0())
        .unwrap();
    let answer = returned(25, 15);
    shop.sharded_ft_resolve_call(&sharded_env("shop.near", "alice.near", 0), 40, None, MethodVersion::v0(), &answer)
        .unwrap();
    alice
        .sharded_ft_refund_call(&sharded_env("alice.near", "alice.near", 0), 40, MethodVersion::v0(), &answer)
        .unwrap();
    assert_eq!((alice.balance, shop.balance), (75, 32));
}

#[test]
fn callbacks_refuse_foreign_callers() {
    let mut t = holder(9);
    // a caller running other code
    let mut other_code = sharded_env("shop.near", "alice.near", 0);
    other_code.predecessor_context = ContractContext::Sharded {
        code_id: GlobalContractCodeIdentifier::AccountId(account("evil.near")),
    };
    assert_eq!(
        t.sharded_ft_resolve_call(&other_code, 10, None, MethodVersion::v0(), &returned(7, 3)).unwrap_err(),
        TokenError::AccessDenied
    );
    other_code.predecessor_context = ContractContext::Root;
    assert_eq!(
        t.sharded_ft_resolve_call(&other_code, 10, None, MethodVersion::v0(), &returned(7, 3)).unwrap_err(),
        TokenError::AccessDenied
    );
    // the refund must come from the account itself
    let foreign = sharded_env("shop.near", "evil.near", 0);
    assert_eq!(
        t.sharded_ft_refund_call(&foreign, 10, MethodVersion::v0(), &returned(7, 3)).unwrap_err(),
        TokenError::AccessDenied
    );
    let mut root = sharded_env("shop.near", "alice.near", 0);
    root.current_context = ContractContext::Root;
    root.predecessor_context = ContractContext::Root;
    assert_eq!(
        t.sharded_ft_resolve_call(&root, 10, None, MethodVersion::v0(), &returned(7, 3)).unwrap_err(),
        TokenError::ShardedContextRequired
    );
    let same = sharded_env("shop.near", "shop.near", 0);
    assert_eq!(
        t.sharded_ft_refund_call(&same, 10, v(5, 5), &returned(7, 3)).unwrap_err(),
        TokenError::UnsupportedVersion
    );
    assert_eq!(
        t.sharded_ft_resolve_call(&same, 10, None, v(0, 1), &returned(7, 3)).unwrap_err(),
        TokenError::UnsupportedVersion
    );
    let mut full = holder(u128::MAX);
    assert_eq!(
        full.sharded_ft_refund_call(&same, 10, MethodVersion::v0(), &TransferCallResult::Failed).unwrap_err(),
        TokenError::BalanceOverflow
    );
    assert_eq!(
        full.sharded_ft_resolve_call(&same, 10, None, MethodVersion::v0(), &returned(7, 3)).unwrap_err(),
        TokenError::BalanceOverflow
    );
    assert_eq!(t.balance, 9);
    assert_eq!(full.balance, u128::MAX);
}

#[test]
fn root_contract() {
    let root = ShardedFungibleTokenRoot::default();
    assert_eq!(root.ft_total_supply(), 0);
    let env = CallEnvironment {
        current_account_id: account("ft.near"),
        predecessor_account_id: account("wallet.near"),
        current_context: ContractContext::Root,
        predecessor_context: ContractContext::Root,
        attached_deposit: 0,
    };
    let plan = root.ft_balance_of(&env, account("alice.near"));
    assert_eq!(plan.lookup.receiver_id, account("alice.near"));
    assert_eq!(plan.lookup.context, ft_context());
    assert_eq!(plan.lookup.gas, GasAllocation::UnusedWeight(1));
    match plan.lookup.method {
        ScheduledMethod::Balance { version } => assert_eq!((version.standard, version.contract), (0, 0)),
        other => panic!("unexpected {:?}", other),
    }
    assert_eq!(plan.resolve.receiver_id, account("ft.near"));
    assert_eq!(plan.resolve.context, ContractContext::Root);
    assert!(matches!(plan.resolve.method, ScheduledMethod::FtResolveBalanceOf));

    let callback = CallEnvironment { predecessor_account_id: account("ft.near"), ..env };
    assert_eq!(root.ft_resolve_balance_of(&callback, &BalanceLookupResult::Returned(42)), Ok(42));
    // an account that holds no token has balance 0
    assert_eq!(root.ft_resolve_balance_of(&callback, &BalanceLookupResult::Failed), Ok(0));
    assert_eq!(root.ft_resolve_balance_of(&callback, &BalanceLookupResult::Malformed), Ok(0));
    let foreign = CallEnvironment {
        current_account_id: account("ft.near"),
        predecessor_account_id: account("evil.near"),
        current_context: ContractContext::Root,
        predecessor_context: ContractContext::Root,
        attached_deposit: 0,
    };
    assert_eq!(
        root.ft_resolve_balance_of(&foreign, &BalanceLookupResult::Returned(42)),
        Err(TokenError::AccessDenied)
    );
}
