use near_event_listener::{
    accepts, ActionSnapshot, BlockFetchError, BlockRecovery, BlockRef, BlockSnapshot,
    ChunkSnapshot, ExecutionOutcome, ListenerError, NearEventListener, PollAction, PollReply,
    PollStage, TransactionSnapshot, TransactionStatus,
};

fn listener(cursor: u64) -> NearEventListener {
    NearEventListener::builder("http://localhost:3030")
        .account_id("game.near")
        .method_name("set_greeting")
        .last_processed_block(cursor)
        .build()
        .unwrap()
}

fn tx(hash: &str, signer: &str, receiver: &str, methods: &[&str]) -> TransactionSnapshot {
    let mut actions = vec![ActionSnapshot::Other];
    for m in methods {
        actions.push(ActionSnapshot::FunctionCall { method_name: m.to_string() });
    }
    TransactionSnapshot {
        hash: hash.to_string(),
        signer_id: signer.to_string(),
        receiver_id: receiver.to_string(),
        actions,
    }
}

fn block(height: u64, chunks: &[&str]) -> BlockSnapshot {
    BlockSnapshot { height, chunks: chunks.iter().map(|c| c.to_string()).collect() }
}

fn event_line(name: &str) -> String {
    format!(r#"EVENT_JSON:{{"standard":"nep171","version":"1.0.0","event":"{}","data":{{}}}}"#, name)
}

#[test]
fn block_reference_follows_the_cursor() {
    assert_eq!(listener(0).specify_block_reference(), BlockRef::Final);
    assert_eq!(listener(0).specify_block_reference(), BlockRef::Final);
    let l = listener(41);
    assert_eq!(l.specify_block_reference(), BlockRef::Height(42));
    assert_eq!(l.specify_block_reference(), BlockRef::Height(42));
}

#[test]
fn chunk_scan_returns_first_match() {
    let l = listener(0);
    let chunk = ChunkSnapshot {
        transactions: vec![
            tx("h1", "alice.near", "other.near", &["set_greeting"]),
            tx("h2", "bob.near", "game.near", &["get_greeting"]),
            tx("h3", "carol.near", "game.near", &["noop", "set_greeting"]),
            tx("h4", "dave.near", "game.near", &["set_greeting"]),
        ],
    };
    assert_eq!(
        l.find_transaction_in_chunk(&chunk),
        Some(("h3".to_string(), "carol.near".to_string()))
    );
    let empty = ChunkSnapshot { transactions: vec![] };
    assert_eq!(l.find_transaction_in_chunk(&empty), None);
}

#[test]
fn block_scan_goes_chunk_by_chunk() {
    let l = listener(0);
    let first = ChunkSnapshot { transactions: vec![tx("h1", "a.near", "game.near", &["other"])] };
    let second = ChunkSnapshot { transactions: vec![tx("h2", "b.near", "game.near", &["set_greeting"])] };
    let third = ChunkSnapshot { transactions: vec![tx("h3", "c.near", "game.near", &["set_greeting"])] };
    assert_eq!(
        l.find_transaction_in_block(&vec![first.clone(), second, third]),
        Some(("h2".to_string(), "b.near".to_string()))
    );
    assert_eq!(l.find_transaction_in_block(&vec![first]), None);
    assert_eq!(l.find_transaction_in_block(&vec![]), None);
}

#[test]
fn extract_logs_concatenates_in_order() {
    let l = listener(0);
    let status = TransactionStatus {
        final_execution_outcome: Some(ExecutionOutcome::Resolved {
            transaction_logs: vec!["t1".to_string()],
            receipt_logs: vec![vec!["r1".to_string(), "r2".to_string()], vec![], vec!["r3".to_string()]],
        }),
    };
    assert_eq!(l.extract_logs(&status), vec!["t1", "r1", "r2", "r3"]);
    let receipt_only = TransactionStatus { final_execution_outcome: Some(ExecutionOutcome::ReceiptOnly) };
    assert!(l.extract_logs(&receipt_only).is_empty());
    let missing = TransactionStatus { final_execution_outcome: None };
    assert!(l.extract_logs(&missing).is_empty());
}

#[test]
fn block_errors_are_classified() {
    let mut l = listener(10);
    assert_eq!(l.handle_block_error(BlockFetchError::UnknownBlock).unwrap(), BlockRecovery::Advanced);
    assert_eq!(l.last_processed_block, 11);
    assert_eq!(
        l.handle_block_error(BlockFetchError::ResponseStatus("503".to_string())).unwrap(),
        BlockRecovery::RetryAfter(5)
    );
    assert_eq!(l.last_processed_block, 11);
    let err = l.handle_block_error(BlockFetchError::Handler("NotSyncedYet".to_string())).unwrap_err();
    assert!(matches!(err, ListenerError::RpcError(m) if m == "Block error: NotSyncedYet"));
    let err = l.handle_block_error(BlockFetchError::Other("timeout".to_string())).unwrap_err();
    assert!(matches!(err, ListenerError::RpcError(m) if m == "Non-handler error: timeout"));
    assert_eq!(l.last_processed_block, 11);
}

#[test]
fn scenario_e_unknown_block_moves_cursor_on() {
    let mut l = listener(100);
    let (stage, action) = l.poll_start();
    assert!(matches!(action, PollAction::FetchBlock(BlockRef::Height(101))));
    let (stage, action) = l.poll_step(stage, PollReply::BlockFailed(BlockFetchError::UnknownBlock));
    assert_eq!(l.last_processed_block, 101);
    assert!(matches!(stage, PollStage::Resting));
    assert!(matches!(action, PollAction::Sleep(2)));
    let (_, action) = l.poll_step(stage, PollReply::Slept);
    assert!(matches!(action, PollAction::FetchBlock(BlockRef::Height(102))));
}

#[test]
fn server_status_error_keeps_cursor_and_backs_off() {
    let mut l = listener(7);
    let (stage, _) = l.poll_start();
    let (stage, action) =
        l.poll_step(stage, PollReply::BlockFailed(BlockFetchError::ResponseStatus("502".to_string())));
    assert_eq!(l.last_processed_block, 7);
    assert!(matches!(action, PollAction::Sleep(5)));
    let (stage, action) = l.poll_step(stage, PollReply::Slept);
    assert!(matches!(action, PollAction::Sleep(2)));
    let (_, action) = l.poll_step(stage, PollReply::Slept);
    assert!(matches!(action, PollAction::FetchBlock(BlockRef::Height(8))));
    assert_eq!(l.last_processed_block, 7);
}

#[test]
fn scenario_f_two_events_delivered_in_log_order() {
    let mut l = listener(0);
    let (stage, action) = l.poll_start();
    assert!(matches!(action, PollAction::FetchBlock(BlockRef::Final)));
    let (stage, action) = l.poll_step(stage, PollReply::Block(block(500, &["c1"])));
    assert!(matches!(action, PollAction::Sleep(2)));
    let (stage, action) = l.poll_step(stage, PollReply::Slept);
    assert!(matches!(&action, PollAction::FetchChunk(h) if h == "c1"));
    let chunk = ChunkSnapshot { transactions: vec![tx("hash1", "user.near", "game.near", &["set_greeting"])] };
    let (stage, action) = l.poll_step(stage, PollReply::Chunk(chunk));
    assert!(matches!(&action, PollAction::FetchStatus { tx_hash, signer_id }
        if tx_hash == "hash1" && signer_id == "user.near"));
    let status = TransactionStatus {
        final_execution_outcome: Some(ExecutionOutcome::Resolved {
            transaction_logs: vec![event_line("first")],
            receipt_logs: vec![vec![event_line("second")]],
        }),
    };
    let (stage, action) = l.poll_step(stage, PollReply::Status(status));
    match action {
        PollAction::Deliver(events) => {
            assert_eq!(events.len(), 2);
            assert_eq!(events[0].event, "first");
            assert_eq!(events[1].event, "second");
        }
        other => panic!("unexpected action {:?}", other),
    }
    assert_eq!(l.last_processed_block, 0);
    let (stage, action) = l.poll_step(stage, PollReply::Delivered);
    assert_eq!(l.last_processed_block, 500);
    assert!(matches!(action, PollAction::Sleep(2)));
    let (_, action) = l.poll_step(stage, PollReply::Slept);
    assert!(matches!(action, PollAction::FetchBlock(BlockRef::Height(501))));
}

#[test]
fn block_without_match_only_moves_cursor() {
    let mut l = listener(9);
    let (stage, _) = l.poll_start();
    let (stage, _) = l.poll_step(stage, PollReply::Block(block(10, &["a", "b"])));
    let (stage, action) = l.poll_step(stage, PollReply::Slept);
    assert!(matches!(&action, PollAction::FetchChunk(h) if h == "a"));
    let none = ChunkSnapshot { transactions: vec![tx("x", "y.near", "game.near", &["other"])] };
    let (stage, action) = l.poll_step(stage, PollReply::Chunk(none.clone()));
    assert!(matches!(&action, PollAction::FetchChunk(h) if h == "b"));
    let (stage, action) = l.poll_step(stage, PollReply::Chunk(none));
    assert!(matches!(stage, PollStage::Resting));
    assert!(matches!(action, PollAction::Sleep(2)));
    assert_eq!(l.last_processed_block, 10);

    let (stage, _) = l.poll_step(stage, PollReply::Slept);
    let (stage, _) = l.poll_step(stage, PollReply::Block(block(11, &[])));
    let (_, action) = l.poll_step(stage, PollReply::Slept);
    assert!(matches!(action, PollAction::Sleep(2)));
    assert_eq!(l.last_processed_block, 11);
}

#[test]
fn fetch_failures_stop_the_loop() {
    let mut l = listener(3);
    let (stage, _) = l.poll_start();
    let (stage, _) = l.poll_step(stage, PollReply::Block(block(4, &["a"])));
    let (stage, _) = l.poll_step(stage, PollReply::Slept);
    assert!(!accepts(&stage, &PollReply::Slept));
    assert!(accepts(&stage, &PollReply::ChunkFailed("down".to_string())));
    let (stage, action) = l.poll_step(stage, PollReply::ChunkFailed("down".to_string()));
    assert!(matches!(stage, PollStage::Stopped));
    assert!(matches!(action, PollAction::Stop(ListenerError::RpcError(m)) if m == "down"));
    assert!(!accepts(&stage, &PollReply::Slept));
    assert_eq!(l.last_processed_block, 3);

    let mut l = listener(0);
    let (stage, _) = l.poll_start();
    let (_, action) = l.poll_step(stage, PollReply::BlockFailed(BlockFetchError::Other("boom".to_string())));
    assert!(matches!(action, PollAction::Stop(ListenerError::RpcError(m)) if m == "Non-handler error: boom"));
}
