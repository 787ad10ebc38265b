use std::sync::mpsc;

use explorer_core::app::App;
use explorer_core::command::{Command, FetchResult};
use explorer_core::route::{ActiveBlock, BlockRef, Route, RouteId, TxRef};
use explorer_core::types::{
    Block, BlockWithTransactionReceipts, Transaction, TransactionReceipt, TransactionWithReceipt,
};

fn fresh_app() -> (App, mpsc::Receiver<Command>) {
    let (tx, rx) = mpsc::channel::<Command>();
    (App::new(tx, "http://localhost:8545", Vec::new()), rx)
}

fn block_payload(number: u64) -> BlockWithTransactionReceipts {
    BlockWithTransactionReceipts {
        block: Block {
            number: Some(number),
            hash: Some(format!("0xhash{}", number)),
            timestamp: 1700000000,
            transaction_count: 2,
        },
        transaction_receipts: None,
    }
}

fn receipt(tag: &str, number: Option<u64>) -> TransactionReceipt {
    TransactionReceipt {
        transaction_hash: tag.to_string(),
        block_number: number,
    }
}

fn current_block_ref(app: &App) -> BlockRef {
    match app.get_current_route().get_id() {
        RouteId::Block(b) => b,
        _ => panic!("expected a block route"),
    }
}

#[test]
fn block_then_receipts_end_to_end() {
    // Dispatch a block fetch, receive the block without receipts, then a
    // receipts batch for the same block: the route ends up showing block
    // 100 with exactly those receipts, the focus untouched throughout.
    let (mut app, rx) = fresh_app();
    app.set_route(Route::new(
        RouteId::Block(BlockRef { number: 100, payload: None }),
        ActiveBlock::Main,
    ));
    app.dispatch(Command::GetBlock { number: 100 });
    assert!(app.is_loading);
    assert!(matches!(rx.try_recv(), Ok(Command::GetBlock { number: 100 })));

    app.process_result(FetchResult::Block { block: block_payload(100) });
    assert!(!app.is_loading);
    let b = current_block_ref(&app);
    let payload = b.payload.expect("the block data must have attached");
    assert_eq!(payload.block.number, Some(100));
    // No receipts have arrived yet: the list is still empty.
    assert!(payload.transaction_receipts.is_none());
    assert_eq!(app.get_current_route().get_active_block(), ActiveBlock::Main);

    app.dispatch(Command::GetBlockReceipts { number: 100 });
    let batch = vec![
        receipt("a", Some(100)),
        receipt("b", Some(100)),
        receipt("c", Some(100)),
    ];
    app.process_result(FetchResult::BlockReceipts { transaction_receipts: batch });
    assert!(!app.is_loading);
    let b = current_block_ref(&app);
    let payload = b.payload.expect("the block data must still be there");
    assert_eq!(payload.block.number, Some(100));
    let receipts = payload.transaction_receipts.expect("the batch must have merged");
    let tags: Vec<&str> = receipts.iter().map(|r| r.transaction_hash.as_str()).collect();
    assert_eq!(tags, ["a", "b", "c"]);
    assert_eq!(app.get_current_route().get_active_block(), ActiveBlock::Main);
}

#[test]
fn receipts_before_the_block_are_dropped() {
    // The documented ordering gap: a receipts batch arriving before the
    // block payload finds nothing to attach to and is lost for that entry;
    // the block then attaches exactly as fetched.
    let (mut app, _rx) = fresh_app();
    app.set_route(Route::new(
        RouteId::Block(BlockRef { number: 100, payload: None }),
        ActiveBlock::Main,
    ));
    app.process_result(FetchResult::BlockReceipts {
        transaction_receipts: vec![receipt("early", Some(100))],
    });
    assert!(current_block_ref(&app).payload.is_none());

    app.process_result(FetchResult::Block { block: block_payload(100) });
    let payload = current_block_ref(&app).payload.expect("the block must attach");
    // The early receipts are gone: only what the block fetch itself
    // carried is shown.
    assert!(payload.transaction_receipts.is_none());
}

#[test]
fn receipts_only_attach_to_the_matching_block() {
    // Two resolved entries for different blocks: a batch for block 100
    // touches only the matching entry; and two entries for the same block
    // both receive it.
    let (mut app, _rx) = fresh_app();
    let mut open = |number: u64| {
        let mut payload = block_payload(number);
        payload.transaction_receipts = Some(Vec::new());
        app.set_route(Route::new(
            RouteId::Block(BlockRef { number, payload: Some(payload) }),
            ActiveBlock::Main,
        ));
    };
    open(200);
    open(100);
    open(100);

    app.process_result(FetchResult::BlockReceipts {
        transaction_receipts: vec![receipt("a", Some(100)), receipt("other", Some(999))],
    });

    // Walk the stack from the top: both entries for block 100 got the
    // matching receipt, the entry for block 200 got nothing.
    for expected in [1usize, 1, 0] {
        let b = current_block_ref(&app);
        let receipts = b.payload.unwrap().transaction_receipts.unwrap();
        assert_eq!(receipts.len(), expected);
        if expected == 1 {
            assert_eq!(receipts[0].transaction_hash, "a");
        }
        app.pop_current_route();
    }
}

#[test]
fn applying_the_same_batch_twice_duplicates() {
    // The merge is additive by design, not set-based: the same batch
    // applied twice appends its receipts twice.
    let (mut app, _rx) = fresh_app();
    app.set_route(Route::new(
        RouteId::Block(BlockRef { number: 100, payload: Some(block_payload(100)) }),
        ActiveBlock::Main,
    ));
    let batch = vec![receipt("dup", Some(100))];
    app.process_result(FetchResult::BlockReceipts { transaction_receipts: batch.clone() });
    app.process_result(FetchResult::BlockReceipts { transaction_receipts: batch });
    let receipts = current_block_ref(&app).payload.unwrap().transaction_receipts.unwrap();
    assert_eq!(receipts.len(), 2);
    assert_eq!(receipts[0].transaction_hash, "dup");
    assert_eq!(receipts[1].transaction_hash, "dup");
}

#[test]
fn receipts_without_a_block_number_match_blocks_without_one() {
    // Absent numeric fields must not break reconciliation: an absent
    // receipt block number matches exactly a payload with an absent number.
    let (mut app, _rx) = fresh_app();
    let payload = BlockWithTransactionReceipts {
        block: Block { number: None, hash: None, timestamp: 0, transaction_count: 0 },
        transaction_receipts: None,
    };
    app.set_route(Route::new(
        RouteId::Block(BlockRef { number: 0, payload: Some(payload) }),
        ActiveBlock::Main,
    ));
    app.process_result(FetchResult::BlockReceipts {
        transaction_receipts: vec![receipt("anon", None), receipt("numbered", Some(3))],
    });
    let receipts = current_block_ref(&app).payload.unwrap().transaction_receipts.unwrap();
    assert_eq!(receipts.len(), 1);
    assert_eq!(receipts[0].transaction_hash, "anon");
}

#[test]
fn a_failure_leaves_every_route_as_it_was() {
    let (mut app, _rx) = fresh_app();
    app.set_route(Route::new(
        RouteId::Block(BlockRef { number: 100, payload: None }),
        ActiveBlock::Main,
    ));
    app.dispatch(Command::GetBlock { number: 100 });
    assert!(app.is_loading);
    app.process_result(FetchResult::Failure);
    assert!(!app.is_loading);
    assert_eq!(app.routes_len(), 2);
    assert!(current_block_ref(&app).payload.is_none());
}

#[test]
fn a_transaction_attaches_to_its_own_entry_only() {
    let (mut app, _rx) = fresh_app();
    app.set_route(Route::new(
        RouteId::Transaction(TxRef { hash: "0xaaa".to_string(), payload: None }),
        ActiveBlock::Main,
    ));
    app.set_route(Route::new(
        RouteId::Transaction(TxRef { hash: "0xbbb".to_string(), payload: None }),
        ActiveBlock::Main,
    ));
    let fetched = TransactionWithReceipt {
        transaction: Transaction {
            hash: "0xaaa".to_string(),
            from: "0xf".to_string(),
            to: None,
            value: 5,
        },
        receipt: receipt("0xaaa", Some(1)),
    };
    app.process_result(FetchResult::TransactionWithReceipt { transaction_with_receipt: fetched });
    match app.get_current_route().get_id() {
        RouteId::Transaction(t) => assert!(t.payload.is_none()),
        _ => panic!("expected a transaction route"),
    }
    app.pop_current_route();
    match app.get_current_route().get_id() {
        RouteId::Transaction(t) => {
            let p = t.payload.expect("the matching entry must be filled");
            assert_eq!(p.transaction.value, 5);
        }
        _ => panic!("expected a transaction route"),
    }
}
