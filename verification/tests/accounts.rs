use account_store::account::Account;

#[test]
fn new_account_has_sentinel_id() {
    let a = Account::new("Account A1");
    assert_eq!(a.id(), 0);
    assert_eq!(a.name().as_str(), "Account A1");
}

#[test]
fn new_account_keeps_its_name() {
    let a = Account::new("a name with spaces");
    assert_eq!(a.name().as_str(), "a name with spaces");
    let b = a.clone();
    assert_eq!(b.id(), 0);
    assert_eq!(b.name().as_str(), "a name with spaces");
}
