use payments_ledger::client::{Client, ClientError, SCALE};

fn units(x: f64) -> i64 {
    (x * SCALE as f64).round() as i64
}

fn available() -> i64 {
    units(100.1221)
}

fn held() -> i64 {
    units(2345.5443)
}

const LOCKED: bool = false;

fn get_test_client() -> Client {
    Client::from(1, available(), held(), LOCKED)
}

#[test]
fn test_deposit() {
    let mut client = get_test_client();
    assert_eq!(client.total(), (available() + held()) as i128);
    let deposit = units(1345.678);
    client.deposit(deposit).unwrap();
    assert_eq!(client.total(), (available() + held() + deposit) as i128);
    let this_available = client.available();
    client.deposit(-this_available).unwrap();
    assert_eq!(client.available(), 0);
    assert_eq!(client.deposit(-units(1.0)), Err(ClientError::InsufficientFunds));
}

#[test]
fn test_hold() {
    let mut client = get_test_client();
    assert_eq!(client.total(), (available() + held()) as i128);
    let hold = units(50.21);
    client.hold(hold).unwrap();
    assert_eq!(client.total(), (available() + held()) as i128);
    let this_available = client.available();
    client.hold(this_available).unwrap();
    assert_eq!(client.available(), 0);
    assert_eq!(client.total(), (available() + held()) as i128);
    assert_eq!(client.hold(units(1.0)), Err(ClientError::InsufficientFunds));
    let total = client.total() as i64;
    client.hold(-total).unwrap();
    assert_eq!(client.available(), available() + held());
    assert_eq!(client.held(), 0);
    assert_eq!(client.hold(-units(1.0)), Err(ClientError::InsufficientFunds));
}

#[test]
fn test_lock() {
    let mut client = get_test_client();
    assert_eq!(client.locked(), LOCKED);
    client.set_locked(true);
    assert_eq!(client.locked(), true);
}

#[test]
fn test_amounts() {
    let client = get_test_client();
    assert_eq!(client.locked(), LOCKED);
    assert_eq!(client.available(), available());
    assert_eq!(client.held(), held());
    assert_eq!(client.total(), (held() + available()) as i128);
}

#[test]
fn fresh_client_is_empty_and_unlocked() {
    let client = Client::from_id(7);
    assert_eq!(*client.id(), 7);
    assert_eq!(client.available(), 0);
    assert_eq!(client.held(), 0);
    assert_eq!(client.total(), 0);
    assert!(!client.locked());
}

#[test]
fn total_is_exact_sum_beyond_i64() {
    let client = Client::from(1, i64::MAX, i64::MAX, false);
    assert_eq!(client.total(), 2 * (i64::MAX as i128));
}

#[test]
fn deposit_then_equal_withdrawal_restores_available() {
    let mut client = Client::from(3, 12_3456, 0, false);
    client.deposit(5_0000).unwrap();
    assert_eq!(client.available(), 17_3456);
    client.deposit(-5_0000).unwrap();
    assert_eq!(client.available(), 12_3456);
}

#[test]
fn failed_withdrawal_leaves_balances() {
    let mut client = Client::from(3, 10_0000, 2_0000, false);
    assert_eq!(client.deposit(-10_0001), Err(ClientError::InsufficientFunds));
    assert_eq!(client, Client::from(3, 10_0000, 2_0000, false));
}

#[test]
fn chargeback_removes_held_and_locks() {
    let mut client = Client::from(4, 3_0000, 5_0000, false);
    client.chargeback(2_0000).unwrap();
    assert_eq!(client, Client::from(4, 3_0000, 3_0000, true));
    assert_eq!(client.total(), 6_0000);
}

#[test]
fn chargeback_errors() {
    let mut client = Client::from(4, 3_0000, 5_0000, false);
    assert_eq!(client.chargeback(-1), Err(ClientError::IncorrectSign));
    assert_eq!(client.chargeback(5_0001), Err(ClientError::InsufficientFunds));
    assert_eq!(client, Client::from(4, 3_0000, 5_0000, false));
}

#[test]
fn error_messages() {
    assert_eq!(ClientError::InsufficientFunds.message(), "Insufficient funds");
    assert_eq!(ClientError::IncorrectSign.message(), "Incorrect sign");
}
