use std::sync::mpsc;

use explorer_core::app::App;
use explorer_core::command::Command;
use explorer_core::route::{ActiveBlock, BlockRef, Route, RouteId};

fn fresh_app() -> (App, mpsc::Receiver<Command>) {
    let (tx, rx) = mpsc::channel::<Command>();
    (App::new(tx, "http://localhost:8545", Vec::new()), rx)
}

fn block_route(number: u64, focus: ActiveBlock) -> Route {
    Route::new(RouteId::Block(BlockRef { number, payload: None }), focus)
}

#[test]
fn pop_sole_entry_is_noop() {
    let (mut app, _rx) = fresh_app();
    assert_eq!(app.routes_len(), 1);
    app.pop_current_route();
    assert_eq!(app.routes_len(), 1);
    let current = app.get_current_route();
    assert!(matches!(current.get_id(), RouteId::Home));
    assert_eq!(current.get_active_block(), ActiveBlock::SearchBar);
}

#[test]
fn push_then_pop_n_times_restores_the_stack() {
    let (mut app, _rx) = fresh_app();
    for number in [1u64, 2, 3] {
        app.set_route(block_route(number, ActiveBlock::Main));
    }
    assert_eq!(app.routes_len(), 4);
    for _ in 0..3 {
        app.pop_current_route();
    }
    assert_eq!(app.routes_len(), 1);
    assert!(matches!(app.get_current_route().get_id(), RouteId::Home));
}

#[test]
fn pop_removes_only_the_top_entry() {
    let (mut app, _rx) = fresh_app();
    app.set_route(block_route(5, ActiveBlock::Main));
    app.set_route(block_route(6, ActiveBlock::Main));
    app.pop_current_route();
    match app.get_current_route().get_id() {
        RouteId::Block(b) => assert_eq!(b.number, 5),
        _ => panic!("expected a block route"),
    }
}

#[test]
fn replace_focus_keeps_depth_and_target() {
    let (mut app, _rx) = fresh_app();
    app.set_route(block_route(7, ActiveBlock::Main));
    assert_eq!(app.routes_len(), 2);
    app.change_active_block(ActiveBlock::LatestTransactions);
    assert_eq!(app.routes_len(), 2);
    let current = app.get_current_route();
    assert_eq!(current.get_active_block(), ActiveBlock::LatestTransactions);
    match current.get_id() {
        RouteId::Block(b) => assert_eq!(b.number, 7),
        _ => panic!("the target must survive a focus change"),
    }
}

#[test]
fn replace_focus_on_the_sole_entry() {
    let (mut app, _rx) = fresh_app();
    app.change_active_block(ActiveBlock::LatestBlocks);
    assert_eq!(app.routes_len(), 1);
    let current = app.get_current_route();
    assert!(matches!(current.get_id(), RouteId::Home));
    assert_eq!(current.get_active_block(), ActiveBlock::LatestBlocks);
}
