use std::sync::mpsc;

use explorer_core::app::App;
use explorer_core::command::{Command, FetchResult};

fn fresh_app() -> (App, mpsc::Receiver<Command>) {
    let (tx, rx) = mpsc::channel::<Command>();
    (App::new(tx, "http://localhost:8545", Vec::new()), rx)
}

#[test]
fn dispatch_raises_the_flag_and_delivers_the_command() {
    let (mut app, rx) = fresh_app();
    assert!(!app.is_loading);
    app.dispatch(Command::GetBlockReceipts { number: 9 });
    assert!(app.is_loading);
    assert!(matches!(rx.try_recv(), Ok(Command::GetBlockReceipts { number: 9 })));
}

#[test]
fn a_dead_worker_clears_the_flag_and_the_app_stays_usable() {
    let (mut app, rx) = fresh_app();
    drop(rx);
    app.dispatch(Command::GetBlock { number: 1 });
    assert!(!app.is_loading);
    // The dashboard is still interactive: navigation and later dispatches
    // keep working.
    app.pop_current_route();
    app.dispatch(Command::GetBlock { number: 2 });
    assert!(!app.is_loading);
}

#[test]
fn any_terminal_signal_clears_the_flag() {
    let (mut app, _rx) = fresh_app();
    app.dispatch(Command::GetBlock { number: 1 });
    assert!(app.is_loading);
    app.process_result(FetchResult::Failure);
    assert!(!app.is_loading);

    app.dispatch(Command::GetBlock { number: 2 });
    assert!(app.is_loading);
    app.process_result(FetchResult::BlockReceipts { transaction_receipts: Vec::new() });
    assert!(!app.is_loading);
}

#[test]
fn overlapping_dispatches_share_one_flag() {
    // The flag is shared, not per command: the drain loop clears it on
    // each terminal signal it consumes, so it reads false once the last
    // observed signal is in — and, as documented, already on the first.
    let (mut app, _rx) = fresh_app();
    app.dispatch(Command::GetBlock { number: 1 });
    app.dispatch(Command::GetBlock { number: 2 });
    assert!(app.is_loading);
    app.process_result(FetchResult::Failure);
    assert!(!app.is_loading);
    app.process_result(FetchResult::Failure);
    assert!(!app.is_loading);
}
