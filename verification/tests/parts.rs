use vault::amount::{amount_text, credit, debit};
use vault::chain::{Attribute, BankMsg, Coin, Response};
use vault::ledger::Ledger;
use vault::text::{place, Placement};

#[test]
fn credit_adds_or_leaves() {
    assert_eq!(credit(0, 0), 0);
    assert_eq!(credit(1, 2), 3);
    assert_eq!(credit(u128::MAX - 5, 5), u128::MAX);
    assert_eq!(credit(u128::MAX - 5, 6), u128::MAX - 5);
    assert_eq!(credit(u128::MAX, 1), u128::MAX);
    assert_eq!(credit(7, u128::MAX), 7);
}

#[test]
fn debit_subtracts_or_leaves() {
    assert_eq!(debit(5, 3), 2);
    assert_eq!(debit(5, 5), 0);
    assert_eq!(debit(3, 5), 3);
    assert_eq!(debit(0, 5), 0);
    assert_eq!(debit(0, 0), 0);
    assert_eq!(debit(u128::MAX, u128::MAX - 1), 1);
}

#[test]
fn amounts_are_written_in_decimal() {
    assert_eq!(amount_text(0), "0");
    assert_eq!(amount_text(7), "7");
    assert_eq!(amount_text(10), "10");
    assert_eq!(amount_text(1_000_000), "1000000");
    assert_eq!(amount_text(u128::MAX), "340282366920938463463374607431768211455");
}

#[test]
fn texts_are_placed_by_their_bytes() {
    assert_eq!(place("", ""), Placement::Same);
    assert_eq!(place("", "a"), Placement::Before);
    assert_eq!(place("a", ""), Placement::After);
    assert_eq!(place("owner", "owner"), Placement::Same);
    assert_eq!(place("owner", "sender"), Placement::Before);
    assert_eq!(place("sender", "receiver"), Placement::After);
    assert_eq!(place("joel", "joe"), Placement::After);
    assert_eq!(place("joe", "joel"), Placement::Before);
    assert_eq!(place("Z", "a"), Placement::Before);
    assert_eq!(place("z", "\u{e9}"), Placement::Before);
    assert_eq!(place("\u{ffff}", "\u{10000}"), Placement::Before);
    assert_eq!(place("\u{10348}", "\u{e9}"), Placement::After);
}

#[test]
fn ledger_books_one_amount_under_each_identity() {
    let mut ledger = Ledger::new();
    assert_eq!(ledger.get("bob"), None);
    assert!(!ledger.contains("bob"));
    assert_eq!(ledger.addresses(), Vec::<String>::new());
    ledger.set("bob".to_string(), 5);
    ledger.set("al".to_string(), 7);
    ledger.set("cy".to_string(), 9);
    ledger.set("bob".to_string(), 6);
    assert_eq!(ledger.get("bob"), Some(6));
    assert_eq!(ledger.get("al"), Some(7));
    assert_eq!(ledger.get("cy"), Some(9));
    assert_eq!(ledger.get("bo"), None);
    assert!(ledger.contains("cy"));
    assert_eq!(ledger.addresses(), vec!["al".to_string(), "bob".to_string(), "cy".to_string()]);
    ledger.remove("bob");
    ledger.remove("dan");
    assert_eq!(ledger.get("bob"), None);
    assert_eq!(ledger.addresses(), vec!["al".to_string(), "cy".to_string()]);
    ledger.remove("al");
    ledger.remove("cy");
    assert_eq!(ledger.addresses(), Vec::<String>::new());
}

#[test]
fn ledger_stays_ordered_under_many_changes() {
    let mut ledger = Ledger::new();
    let mut expected: Vec<(String, u128)> = Vec::new();
    for i in 0..200u128 {
        let name = format!("id{}", (i * 37) % 101);
        ledger.set(name.clone(), i);
        expected.retain(|(n, _)| *n != name);
        expected.push((name, i));
    }
    for i in 0..50u128 {
        let name = format!("id{}", (i * 13) % 101);
        ledger.remove(&name);
        expected.retain(|(n, _)| *n != name);
    }
    expected.sort();
    assert_eq!(expected.len(), 51);
    assert_eq!(ledger.addresses(), expected.iter().map(|(n, _)| n.clone()).collect::<Vec<String>>());
    for (name, amount) in expected {
        assert_eq!(ledger.get(&name), Some(amount));
    }
    assert_eq!(ledger.get("id0"), None);
}

#[test]
fn response_is_built_in_order() {
    let response = Response::new()
        .add_attribute("action", "first".to_string())
        .add_message(BankMsg::Send {
            to_address: "sender".to_string(),
            amount: vec![Coin { denom: "atom".to_string(), amount: 1 }],
        })
        .add_attribute("amount", "1".to_string());
    assert_eq!(Response::new(), Response { messages: vec![], attributes: vec![] });
    assert_eq!(
        response,
        Response {
            messages: vec![BankMsg::Send {
                to_address: "sender".to_string(),
                amount: vec![Coin { denom: "atom".to_string(), amount: 1 }],
            }],
            attributes: vec![
                Attribute { key: "action".to_string(), value: "first".to_string() },
                Attribute { key: "amount".to_string(), value: "1".to_string() },
            ],
        }
    );
}
