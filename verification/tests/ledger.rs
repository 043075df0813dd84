use decash::DeCash;

#[test]
fn fresh_ledger_has_no_memos() {
    let contract = DeCash::default();
    let memos = contract.get_memos("carol.near".to_string());
    assert_eq!(memos, Vec::<String>::new());
}

#[test]
fn make_record_combines_memo_and_price() {
    let record = decash::make_record("a".to_string(), "b".to_string());
    assert_eq!(record, "a || bNEAR");
}

#[test]
fn alice_appends_two_memos() {
    let mut contract = DeCash::default();
    let alice = "alice".to_string();
    contract.append_memo_for(&alice, "coffee".to_string(), "2.5".to_string());
    contract.append_memo_for(&alice, "book".to_string(), "10".to_string());
    assert_eq!(
        contract.get_memos("alice".to_string()),
        vec!["coffee || 2.5NEAR".to_string(), "book || 10NEAR".to_string()]
    );
    assert_eq!(contract.get_memos("bob".to_string()), Vec::<String>::new());
}

#[test]
fn append_keeps_other_accounts_unchanged() {
    let mut contract = DeCash::default();
    let alice = "alice".to_string();
    let bob = "bob".to_string();
    contract.append_memo_for(&alice, "coffee".to_string(), "2.5".to_string());
    contract.append_memo_for(&bob, "tea".to_string(), "1".to_string());
    assert_eq!(
        contract.get_memos("alice".to_string()),
        vec!["coffee || 2.5NEAR".to_string()]
    );
    assert_eq!(
        contract.get_memos("bob".to_string()),
        vec!["tea || 1NEAR".to_string()]
    );
}

#[test]
fn get_memos_has_no_side_effect() {
    let mut contract = DeCash::default();
    let alice = "alice".to_string();
    contract.append_memo_for(&alice, "coffee".to_string(), "2.5".to_string());
    let first = contract.get_memos("alice".to_string());
    let second = contract.get_memos("alice".to_string());
    let third = contract.get_memos("alice".to_string());
    assert_eq!(first, second);
    assert_eq!(second, third);
    assert_eq!(first, vec!["coffee || 2.5NEAR".to_string()]);
}

#[test]
fn duplicate_records_are_kept_in_order() {
    let mut contract = DeCash::default();
    let alice = "alice".to_string();
    contract.append_memo_for(&alice, "coffee".to_string(), "2.5".to_string());
    contract.append_memo_for(&alice, "coffee".to_string(), "2.5".to_string());
    assert_eq!(
        contract.get_memos("alice".to_string()),
        vec!["coffee || 2.5NEAR".to_string(), "coffee || 2.5NEAR".to_string()]
    );
}

#[test]
fn empty_memo_and_price_are_accepted() {
    let mut contract = DeCash::default();
    let alice = "alice".to_string();
    contract.append_memo_for(&alice, "".to_string(), "".to_string());
    assert_eq!(
        contract.get_memos("alice".to_string()),
        vec![" || NEAR".to_string()]
    );
}

#[test]
fn add_memo_records_for_the_signer() {
    let mut contract = DeCash::default();
    let signer = near_sdk::env::signer_account_id().to_string();
    contract.add_memo("coffee".to_string(), "2.5".to_string());
    contract.add_memo("book".to_string(), "10".to_string());
    assert_eq!(
        contract.get_memos(signer.clone()),
        vec!["coffee || 2.5NEAR".to_string(), "book || 10NEAR".to_string()]
    );
    let other = format!("not-{}", signer);
    assert_eq!(contract.get_memos(other), Vec::<String>::new());
}
