use ntbindings::address::parse_address;
use ntbindings::errors::ExitCode;
use ntbindings::keys::PublicKey;
use ntbindings::models::{
    prepare_transfer, AccountSnapshot, AccountState, ContractState, ContractType, MultisigType,
    PendingTransaction, Transaction, TransactionsBatchInfo, TransferAction, WalletKind,
};
use ntbindings::port::{PortMessage, SendPort, TonWalletSubscriptionHandler};
use ntbindings::storage::NativeStorage;
use ntbindings::subscription::{TonWalletSubscription, WalletEvent};
use ntbindings::tasks::{Context, TaskManager};

fn addr_text() -> String {
    let mut s = String::from("0:");
    for _ in 0..64 {
        s.push('c');
    }
    s
}

fn test_key() -> PublicKey {
    PublicKey { bytes: vec![0xAA; 32] }
}

fn fresh_subscription(initial: ContractState) -> TonWalletSubscription {
    let address = parse_address(&addr_text()).expect("the address text is well-formed");
    TonWalletSubscription::subscribe(address, test_key(), ContractType::WalletV3, initial)
}

fn existing(balance: u64, is_deployed: bool, lt: u64) -> ContractState {
    ContractState::Exists(AccountSnapshot { balance, is_deployed, last_trans_lt: lt })
}

#[test]
fn subscribe_is_deterministic() {
    let a = fresh_subscription(ContractState::NotExists);
    let b = fresh_subscription(ContractState::NotExists);
    assert_eq!(a.address, b.address);
    assert_eq!(a.public_key, b.public_key);
    assert_eq!(a.contract_type, b.contract_type);
    assert_eq!(a.account_state, b.account_state);
    assert!(a.pending.is_empty() && b.pending.is_empty());
}

#[test]
fn subscribe_collapses_initial_state() {
    let w = fresh_subscription(ContractState::NotExists);
    assert_eq!(
        w.account_state,
        AccountState { balance: 0, is_deployed: false, last_trans_lt: 0 }
    );
    let w = fresh_subscription(existing(77, true, 5));
    assert_eq!(
        w.account_state,
        AccountState { balance: 77, is_deployed: true, last_trans_lt: 5 }
    );
}

#[test]
fn refresh_emits_state_change_once() {
    let w = fresh_subscription(ContractState::NotExists);
    let fetched = existing(1000, true, 9);

    let (w, evs) = w.apply_refresh(fetched, 50);
    assert_eq!(evs.len(), 1);
    match &evs[0] {
        WalletEvent::StateChanged { new_state } => {
            assert_eq!(new_state.balance, 1000);
            assert!(new_state.is_deployed);
        }
        other => panic!("expected a state change, got {:?}", other),
    }

    // second refresh against the unchanged chain: no event at all
    let (_, evs) = w.apply_refresh(fetched, 50);
    assert!(evs.is_empty(), "refresh must be idempotent, got {:?}", evs);
}

#[test]
fn refresh_expires_stale_pendings() {
    let mut w = fresh_subscription(existing(10, true, 1));
    w.pending = vec![
        PendingTransaction { message_hash: vec![1; 32], expire_at: 5 },
        PendingTransaction { message_hash: vec![2; 32], expire_at: 100 },
        PendingTransaction { message_hash: vec![3; 32], expire_at: 7 },
    ];
    let (w, evs) = w.apply_refresh(existing(10, true, 1), 10);
    // the state did not change: only the two expiries, in order
    assert_eq!(evs.len(), 2);
    match &evs[0] {
        WalletEvent::MessageExpired { pending } => assert_eq!(pending.message_hash, vec![1; 32]),
        other => panic!("expected the first expiry, got {:?}", other),
    }
    match &evs[1] {
        WalletEvent::MessageExpired { pending } => assert_eq!(pending.message_hash, vec![3; 32]),
        other => panic!("expected the second expiry, got {:?}", other),
    }
    assert_eq!(w.pending.len(), 1);
    assert_eq!(w.pending[0].message_hash, vec![2; 32]);
}

#[test]
fn confirm_pending_reports_the_match() {
    let mut w = fresh_subscription(existing(10, true, 1));
    w.pending = vec![
        PendingTransaction { message_hash: vec![8; 32], expire_at: 50 },
        PendingTransaction { message_hash: vec![9; 32], expire_at: 60 },
    ];
    let tx = Transaction { lt: 44, in_msg_hash: vec![9; 32], value: 123 };
    let (w, ev) = w.confirm_pending(tx);
    match ev {
        Some(WalletEvent::MessageSent { pending, transaction }) => {
            assert_eq!(pending.message_hash, vec![9; 32]);
            assert_eq!(transaction.expect("the transaction is forwarded").lt, 44);
        }
        other => panic!("expected a message-sent event, got {:?}", other),
    }
    assert_eq!(w.pending.len(), 1);
    assert_eq!(w.pending[0].message_hash, vec![8; 32]);

    // no match: nothing changes, nothing is due
    let tx = Transaction { lt: 45, in_msg_hash: vec![7; 32], value: 1 };
    let (w, ev) = w.confirm_pending(tx);
    assert!(ev.is_none());
    assert_eq!(w.pending.len(), 1);
}

#[test]
fn teardown_cancels_every_spawned_task() {
    let mut m = TaskManager::new();
    assert!(m.track(11));
    assert!(m.track(22));
    assert!(m.track(33));
    let cancelled = m.teardown();
    assert_eq!(cancelled, vec![11, 22, 33]);
    assert!(m.tasks.is_empty());

    // once teardown has begun, nothing is accepted and nothing is recorded
    assert!(!m.track(44));
    let cancelled = m.teardown();
    assert!(cancelled.is_empty());
}

#[test]
fn spawn_registers_until_teardown() {
    let w = fresh_subscription(ContractState::NotExists);
    let mut ctx = Context::new(w, TaskManager::new());
    assert_eq!(ctx.spawn(5), ExitCode::Success);
    assert_eq!(ctx.spawn(6), ExitCode::Success);
    let cancelled = ctx.manager.teardown();
    assert_eq!(cancelled, vec![5, 6]);
    assert_eq!(ctx.spawn(7), ExitCode::RuntimeIsNotInitialized);
    assert!(ctx.manager.tasks.is_empty());
}

#[test]
fn storage_keeps_unique_keys() {
    let pairs = vec![
        ("alpha".to_string(), "1".to_string()),
        ("beta".to_string(), "2".to_string()),
    ];
    let mut st = NativeStorage::from_pairs(pairs).expect("unique keys are accepted");
    assert_eq!(st.get("alpha"), Some("1".to_string()));
    assert_eq!(st.get("gamma"), None);

    st.set("beta", "20");
    assert_eq!(st.get("beta"), Some("20".to_string()));
    st.set("gamma", "3");
    assert_eq!(st.get("gamma"), Some("3".to_string()));
    assert_eq!(st.dump().len(), 3);

    st.remove("alpha");
    assert_eq!(st.get("alpha"), None);
    assert_eq!(st.dump().len(), 2);
    st.remove("alpha");
    assert_eq!(st.dump().len(), 2);

    let dup = vec![
        ("k".to_string(), "1".to_string()),
        ("k".to_string(), "2".to_string()),
    ];
    assert!(NativeStorage::from_pairs(dup).is_none());
}

#[test]
fn handler_posts_the_full_new_state() {
    let h = TonWalletSubscriptionHandler::new(42);
    assert_eq!(h.port, SendPort::new(42));

    let ev = WalletEvent::StateChanged {
        new_state: AccountState { balance: 555, is_deployed: true, last_trans_lt: 2 },
    };
    match h.handle_event(ev) {
        PortMessage::StateChanged(changed) => {
            // the payload carries the whole state, not just the balance
            assert_eq!(changed.new_state.balance, 555);
            assert!(changed.new_state.is_deployed);
            assert_eq!(changed.new_state.last_trans_lt, 2);
        }
        other => panic!("a state change posts the full new state, got {:?}", other),
    }

    // two states equal in balance but different elsewhere post different
    // payloads
    let ev = WalletEvent::StateChanged {
        new_state: AccountState { balance: 555, is_deployed: false, last_trans_lt: 2 },
    };
    match h.handle_event(ev) {
        PortMessage::StateChanged(changed) => assert!(!changed.new_state.is_deployed),
        other => panic!("a state change posts the full new state, got {:?}", other),
    }

    let ev = WalletEvent::TransactionsFound {
        transactions: vec![Transaction { lt: 1, in_msg_hash: vec![0; 32], value: 9 }],
        batch_info: TransactionsBatchInfo { min_lt: 1, max_lt: 1, old: false },
    };
    match h.handle_event(ev) {
        PortMessage::TransactionsFound(found) => {
            assert_eq!(found.transactions.len(), 1);
            assert!(!found.batch_info.old);
        }
        other => panic!("expected the found batch, got {:?}", other),
    }
}

#[test]
fn registered_pending_is_tracked_to_its_end() {
    let mut w = fresh_subscription(existing(10, true, 1));
    // the side effect of a successful send
    w.register_pending(vec![5; 32], 70);
    w.register_pending(vec![6; 32], 30);
    assert_eq!(w.pending.len(), 2);
    assert_eq!(w.pending[0].message_hash, vec![5; 32]);

    // the transaction arrives: the matching pending transfer is confirmed
    let tx = Transaction { lt: 9, in_msg_hash: vec![5; 32], value: 4 };
    let (w, ev) = w.confirm_pending(tx);
    match ev {
        Some(WalletEvent::MessageSent { pending, .. }) => {
            assert_eq!(pending.message_hash, vec![5; 32]);
        }
        other => panic!("expected the registered transfer confirmed, got {:?}", other),
    }

    // the other one expires instead
    let (w, evs) = w.apply_refresh(existing(10, true, 1), 40);
    assert_eq!(evs.len(), 1);
    match &evs[0] {
        WalletEvent::MessageExpired { pending } => assert_eq!(pending.message_hash, vec![6; 32]),
        other => panic!("expected the registered transfer expired, got {:?}", other),
    }
    assert!(w.pending.is_empty());
}

#[test]
fn prepare_transfer_decides_deploy_first() {
    let no_code = AccountSnapshot { balance: 900, is_deployed: false, last_trans_lt: 0 };
    assert_eq!(prepare_transfer(&no_code), TransferAction::DeployFirst);
    let with_code = AccountSnapshot { balance: 900, is_deployed: true, last_trans_lt: 3 };
    assert_eq!(prepare_transfer(&with_code), TransferAction::Sign);
}

#[test]
fn contract_types_map_to_wallet_kinds() {
    assert_eq!(
        WalletKind::from(ContractType::SafeMultisig),
        WalletKind::Multisig(MultisigType::SafeMultisigWallet)
    );
    assert_eq!(
        WalletKind::from(ContractType::SafeMultisig24h),
        WalletKind::Multisig(MultisigType::SafeMultisigWallet24h)
    );
    assert_eq!(
        WalletKind::from(ContractType::SetcodeMultisig),
        WalletKind::Multisig(MultisigType::SetcodeMultisigWallet)
    );
    assert_eq!(
        WalletKind::from(ContractType::Surf),
        WalletKind::Multisig(MultisigType::SurfWallet)
    );
    assert_eq!(WalletKind::from(ContractType::WalletV3), WalletKind::WalletV3);
}
