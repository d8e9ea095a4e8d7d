use minichain::host::{ChainId, ContractError, ExecutionContext};
use minichain::tip_jar::{
    OperationStatus, TipJar, TipJarApplicationCall, TipJarEffect, TipJarMessage, TipJarOperation,
    TipJarResponse, TipJarSessionCall, TransactionType,
};

fn ctx_on(chain_id: ChainId) -> ExecutionContext {
    ExecutionContext { chain_id, timestamp: 1_700_000_000_000 }
}

#[test]
fn test_tip_jar_deposit() {
    let mut tip_jar = TipJar::default();
    tip_jar.balance = 0;

    tip_jar.balance += 100;

    assert_eq!(tip_jar.balance, 100);
}

#[test]
fn test_tip_jar_withdraw() {
    let mut tip_jar = TipJar::default();
    tip_jar.balance = 100;

    if tip_jar.balance >= 50 {
        tip_jar.balance -= 50;
    }

    assert_eq!(tip_jar.balance, 50);
}

#[test]
fn test_tip_jar_insufficient_funds() {
    let mut tip_jar = TipJar::default();
    tip_jar.balance = 10;

    if tip_jar.balance >= 50 {
        tip_jar.balance -= 50;
    }

    assert_eq!(tip_jar.balance, 10); // Balance unchanged
}

#[test]
fn test_tip_jar_connections() {
    let mut tip_jar = TipJar::default();
    let chain_id = ChainId::from([1; 32]);

    tip_jar.connections.push(chain_id);

    assert_eq!(tip_jar.connections.len(), 1);
    assert!(tip_jar.connections.contains(&chain_id));
}

#[test]
fn deposits_accumulate_to_their_sum() {
    let mut jar = TipJar::default();
    let ctx = ctx_on(ChainId::from([7; 32]));
    for amount in [10u64, 20, 30] {
        jar.execute_operation(&ctx, TipJarOperation::Deposit { amount });
    }
    assert_eq!(jar.balance, 60);
    assert_eq!(jar.transactions.len(), 3);
    assert_eq!(jar.transactions[0].id, "deposit_0");
    assert_eq!(jar.transactions[1].id, "deposit_1");
    assert_eq!(jar.transactions[2].id, "deposit_2");
    assert!(matches!(jar.transactions[0].transaction_type, TransactionType::Deposit));
}

#[test]
fn withdraw_insufficient_leaves_state_unchanged() {
    let mut jar = TipJar::default();
    let ctx = ctx_on(ChainId::from([7; 32]));
    jar.balance = 10;

    let r = jar.execute_operation(&ctx, TipJarOperation::Withdraw { amount: 50 });
    assert!(r.effects.is_empty());
    assert_eq!(jar.balance, 10);
    assert!(jar.transactions.is_empty());
}

#[test]
fn withdraw_sufficient_records_transaction() {
    let mut jar = TipJar::default();
    let ctx = ctx_on(ChainId::from([7; 32]));
    jar.balance = 100;

    let status = jar.withdraw(&ctx, 40);
    assert_eq!(status, OperationStatus::Applied);
    assert_eq!(jar.balance, 60);
    assert_eq!(jar.transactions.len(), 1);
    assert_eq!(jar.transactions[0].id, "withdraw_0");
    assert!(matches!(jar.transactions[0].transaction_type, TransactionType::Withdrawal));
    assert_eq!(jar.transactions[0].amount, 40);
}

#[test]
fn send_tip_debits_and_emits_one_notification() {
    let mut jar = TipJar::default();
    let a = ChainId::from([1; 32]);
    let b = ChainId::from([2; 32]);
    jar.balance = 100;

    let r = jar.execute_operation(&ctx_on(a), TipJarOperation::SendTip { to_chain: b, amount: 30 });
    assert_eq!(jar.balance, 70);
    assert_eq!(jar.transactions.len(), 1);
    assert_eq!(jar.transactions[0].id, "tip_0");
    assert_eq!(jar.transactions[0].amount, 30);
    assert!(matches!(jar.transactions[0].transaction_type, TransactionType::TipSent));
    assert_eq!(r.effects.len(), 1);
    match &r.effects[0] {
        TipJarEffect::SendTip { to_chain, amount, transaction_id } => {
            assert_eq!(*to_chain, b);
            assert_eq!(*amount, 30);
            assert_eq!(transaction_id, "tip_0");
        },
        _ => panic!("expected a send-tip notification"),
    }
}

#[test]
fn send_tip_insufficient_is_silent() {
    let mut jar = TipJar::default();
    let a = ChainId::from([1; 32]);
    let b = ChainId::from([2; 32]);
    jar.balance = 10;

    let (status, r) = jar.send_tip(&ctx_on(a), b, 30);
    assert_eq!(status, OperationStatus::InsufficientFunds);
    assert!(r.effects.is_empty());
    assert_eq!(jar.balance, 10);
    assert!(jar.transactions.is_empty());
}

#[test]
fn receive_tip_credits_fresh_ledger() {
    let mut jar = TipJar::default();
    let a = ChainId::from([1; 32]);
    let b = ChainId::from([2; 32]);

    jar.execute_message(
        &ctx_on(b),
        TipJarMessage::ReceiveTip {
            from_chain: a,
            amount: 30,
            transaction_id: "tip_0".to_string(),
        },
    );
    assert_eq!(jar.balance, 30);
    assert_eq!(jar.transactions.len(), 1);
    assert_eq!(jar.transactions[0].id, "tip_0");
    assert_eq!(jar.transactions[0].amount, 30);
    assert!(matches!(jar.transactions[0].transaction_type, TransactionType::TipReceived));
}

#[test]
fn cross_chain_tip_scenario() {
    let a_id = ChainId::from([1; 32]);
    let b_id = ChainId::from([2; 32]);
    let mut a = TipJar::default();
    let mut b = TipJar::default();
    a.balance = 100;

    let r = a.execute_operation(&ctx_on(a_id), TipJarOperation::SendTip {
        to_chain: b_id,
        amount: 30,
    });
    assert_eq!(a.balance, 70);
    assert_eq!(a.transactions.len(), 1);
    assert_eq!(a.transactions[0].id, "tip_0");
    assert!(matches!(a.transactions[0].transaction_type, TransactionType::TipSent));

    // The host routes the emitted notification to B as a ReceiveTip message.
    let (to_chain, amount, transaction_id) = match &r.effects[0] {
        TipJarEffect::SendTip { to_chain, amount, transaction_id } => {
            (*to_chain, *amount, transaction_id.clone())
        },
        _ => panic!("expected a send-tip notification"),
    };
    assert_eq!(to_chain, b_id);
    b.execute_message(
        &ctx_on(b_id),
        TipJarMessage::ReceiveTip { from_chain: a_id, amount, transaction_id },
    );
    assert_eq!(b.balance, 30);
    assert_eq!(b.transactions.len(), 1);
    assert_eq!(b.transactions[0].id, "tip_0");
    assert_eq!(b.transactions[0].amount, 30);
    assert!(matches!(b.transactions[0].transaction_type, TransactionType::TipReceived));
}

#[test]
fn confirmation_settles_and_is_idempotent() {
    let a_id = ChainId::from([1; 32]);
    let b_id = ChainId::from([2; 32]);
    let mut a = TipJar::default();
    a.balance = 100;
    a.execute_operation(&ctx_on(a_id), TipJarOperation::SendTip { to_chain: b_id, amount: 30 });

    let confirm = || TipJarMessage::TipSent {
        to_chain: b_id,
        amount: 30,
        transaction_id: "tip_0".to_string(),
    };
    a.execute_message(&ctx_on(a_id), confirm());
    assert_eq!(a.balance, 70);
    assert!(matches!(a.transactions[0].transaction_type, TransactionType::TipSent));
    let first = a.snapshot();

    a.execute_message(&ctx_on(a_id), confirm());
    let second = a.snapshot();
    assert_eq!(first.balance, second.balance);
    assert_eq!(first.transactions, second.transactions);
    assert_eq!(first.connections, second.connections);
}

#[test]
fn confirmation_for_unknown_id_is_dropped() {
    let a_id = ChainId::from([1; 32]);
    let mut a = TipJar::default();
    a.balance = 5;
    a.execute_message(&ctx_on(a_id), TipJarMessage::TipSent {
        to_chain: a_id,
        amount: 1,
        transaction_id: "tip_99".to_string(),
    });
    assert_eq!(a.balance, 5);
    assert!(a.transactions.is_empty());
}

#[test]
fn connect_twice_keeps_one_entry() {
    let mut jar = TipJar::default();
    let ctx = ctx_on(ChainId::from([1; 32]));
    let x = ChainId::from([9; 32]);

    jar.execute_operation(&ctx, TipJarOperation::ConnectChain { chain_id: x });
    jar.execute_operation(&ctx, TipJarOperation::ConnectChain { chain_id: x });

    assert_eq!(jar.connections.len(), 1);
    assert_eq!(jar.connections[0], x);
}

#[test]
fn disconnect_removes_connection() {
    let mut jar = TipJar::default();
    let ctx = ctx_on(ChainId::from([1; 32]));
    let x = ChainId::from([9; 32]);
    let y = ChainId::from([8; 32]);

    jar.connect(x);
    jar.connect(y);
    jar.execute_operation(&ctx, TipJarOperation::DisconnectChain { chain_id: x });
    assert_eq!(jar.connections.len(), 1);
    assert_eq!(jar.connections[0], y);

    // Disconnecting again is a no-op.
    jar.disconnect(x);
    assert_eq!(jar.connections.len(), 1);
}

#[test]
fn initialize_resets_ledger() {
    let mut jar = TipJar::default();
    jar.balance = 55;
    jar.connect(ChainId::from([3; 32]));
    jar.initialize();
    assert_eq!(jar.balance, 0);
    assert!(jar.connections.is_empty());
    assert!(jar.transactions.is_empty());
    assert_eq!(jar.owner, "default-owner");
}

#[test]
fn application_calls_mirror_operations_with_records() {
    let mut jar = TipJar::default();
    let ctx = ctx_on(ChainId::from([1; 32]));

    jar.handle_application_call(&ctx, TipJarApplicationCall::Deposit { amount: 100 });
    assert_eq!(jar.balance, 100);
    assert_eq!(jar.transactions.len(), 1);
    assert_eq!(jar.transactions[0].id, "deposit_0");
    assert!(matches!(jar.transactions[0].transaction_type, TransactionType::Deposit));

    jar.handle_application_call(&ctx, TipJarApplicationCall::Withdraw { amount: 150 });
    assert_eq!(jar.balance, 100);
    assert_eq!(jar.transactions.len(), 1);

    jar.handle_application_call(&ctx, TipJarApplicationCall::Withdraw { amount: 60 });
    assert_eq!(jar.balance, 40);
    assert_eq!(jar.transactions.len(), 2);
    assert_eq!(jar.transactions[1].id, "withdraw_1");

    let r = jar.handle_application_call(&ctx, TipJarApplicationCall::GetBalance);
    assert!(matches!(r.value, Some(TipJarResponse::Balance(40))));

    let b = ChainId::from([2; 32]);
    let r = jar.handle_application_call(&ctx, TipJarApplicationCall::SendTip {
        to_chain: b,
        amount: 15,
    });
    assert_eq!(jar.balance, 25);
    assert_eq!(jar.transactions.len(), 3);
    assert_eq!(jar.transactions[2].id, "tip_2");
    assert!(matches!(jar.transactions[2].transaction_type, TransactionType::TipSent));
    assert_eq!(r.effects.len(), 1);
    assert!(matches!(
        &r.effects[0],
        TipJarEffect::SendTip { amount: 15, transaction_id, .. } if transaction_id == "tip_2"
    ));

    // A second send-tip gets a fresh, previously unused identifier.
    let r = jar.handle_application_call(&ctx, TipJarApplicationCall::SendTip {
        to_chain: b,
        amount: 5,
    });
    assert_eq!(jar.transactions[3].id, "tip_3");
    assert!(matches!(
        &r.effects[0],
        TipJarEffect::SendTip { transaction_id, .. } if transaction_id == "tip_3"
    ));

    let r = jar.handle_application_call(&ctx, TipJarApplicationCall::ConnectChain { chain_id: b });
    assert!(r.value.is_none());
    let r = jar.handle_application_call(&ctx, TipJarApplicationCall::GetConnections);
    match r.value {
        Some(TipJarResponse::Connections(v)) => assert_eq!(v, vec![b]),
        _ => panic!("expected connections"),
    }

    let r = jar.handle_application_call(&ctx, TipJarApplicationCall::GetTransactions);
    assert!(matches!(r.value, Some(TipJarResponse::Transactions(v)) if v.len() == 4));
}

#[test]
fn session_calls_rejected() {
    let jar = TipJar::default();
    let r = jar.handle_session_call(TipJarSessionCall::GetBalance);
    assert!(matches!(r, Err(ContractError::UnsupportedCall)));
}

#[test]
fn handle_effect_emits_nothing() {
    let jar = TipJar::default();
    let effect = TipJarEffect::ConnectChain { chain_id: ChainId::from([4; 32]) };
    let r = jar.handle_effect(&effect);
    assert!(r.effects.is_empty());
}
