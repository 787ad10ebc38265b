use std::sync::mpsc;

use explorer_core::app::App;
use explorer_core::cache::NameCache;
use explorer_core::command::{Command, FetchResult};
use explorer_core::route::{ActiveBlock, AddrRef, Route, RouteId};
use explorer_core::types::{AddressInfo, ERC20Token};

#[test]
fn an_unattempted_address_is_distinct_from_a_nameless_one() {
    let mut cache = NameCache::new();
    let addr = "0x01".to_string();
    assert!(cache.get(&addr).is_none());
    cache.insert(addr.clone(), None);
    // Resolution ran and found no name: the entry exists and says so.
    assert_eq!(cache.get(&addr), Some(None));
}

#[test]
fn the_last_written_name_wins() {
    let mut cache = NameCache::new();
    let addr = "0x02".to_string();
    cache.insert(addr.clone(), Some("old.eth".to_string()));
    cache.insert(addr.clone(), Some("new.eth".to_string()));
    assert_eq!(cache.get(&addr), Some(Some("new.eth".to_string())));
    assert!(cache.get(&"0x03".to_string()).is_none());
}

#[test]
fn a_resolution_fills_the_cache_and_the_matching_route() {
    let (tx, _rx) = mpsc::channel::<Command>();
    let mut app = App::new(tx, "http://localhost:8545", Vec::new());
    let addr = "0xd8da6bf26964af9d7eed9e03e53415d37aa96045".to_string();
    app.set_route(Route::new(
        RouteId::AddressInfo(AddrRef { address: addr.clone(), payload: None }),
        ActiveBlock::Main,
    ));
    app.process_result(FetchResult::NameOrAddressInfo {
        info: AddressInfo { address: addr.clone(), ens_id: Some("vitalik.eth".to_string()) },
    });
    assert_eq!(app.address2ens_id.get(&addr), Some(Some("vitalik.eth".to_string())));
    match app.get_current_route().get_id() {
        RouteId::AddressInfo(a) => {
            let info = a.payload.expect("the resolved entry must be filled");
            assert_eq!(info.ens_id.as_deref(), Some("vitalik.eth"));
        }
        _ => panic!("expected an address route"),
    }
}

fn registry() -> Vec<ERC20Token> {
    let tok = |name: &str, ticker: &str, addr: &str| ERC20Token {
        name: name.to_string(),
        ticker: ticker.to_string(),
        contract_address: addr.to_string(),
    };
    vec![
        tok("First", "AAA", "0x0a"),
        tok("Second", "BBB", "0x0b"),
        tok("Shadowed", "AAA", "0x0c"),
    ]
}

#[test]
fn the_registry_returns_the_first_match() {
    let tokens = registry();
    let by_ticker = ERC20Token::find_by_ticker(&tokens, &"AAA".to_string())
        .expect("the ticker is registered");
    assert_eq!(by_ticker.name, "First");
    assert!(ERC20Token::find_by_ticker(&tokens, &"ZZZ".to_string()).is_none());

    let by_address = ERC20Token::find_by_address(&tokens, &"0x0b".to_string())
        .expect("the address is registered");
    assert_eq!(by_address.ticker, "BBB");
    assert!(ERC20Token::find_by_address(&tokens, &"0x0d".to_string()).is_none());
}
