use ledger_core::ledger::{order_ids, settle_credit, settle_debit, settle_transfer, validate_request, TransactionError};
use ledger_core::store::Ledger;
use ledger_core::transaction::{CreateTransactionRequest, TransactionType};

fn req(
    tx_type: TransactionType,
    amount: i64,
    source: Option<u128>,
    dest: Option<u128>,
) -> CreateTransactionRequest {
    CreateTransactionRequest { tx_type, amount, source_account_id: source, dest_account_id: dest }
}

fn ledger_with_accounts() -> Ledger {
    // business 7: account 0 in USD, account 1 in USD, account 2 in EUR;
    // business 9: account 3.
    let mut l = Ledger::new();
    l.create_account(7, "ops".to_string(), "USD".to_string()).unwrap();
    l.create_account(7, "savings".to_string(), "USD".to_string()).unwrap();
    l.create_account(7, "travel".to_string(), "EUR".to_string()).unwrap();
    l.create_account(9, "other".to_string(), "USD".to_string()).unwrap();
    l
}

#[test]
fn validate_rejects_nonpositive_amount() {
    let r = validate_request(&req(TransactionType::Credit, 0, None, Some(1)));
    assert!(matches!(r, Err(TransactionError::BadRequest("amount must be > 0"))));
    let r = validate_request(&req(TransactionType::Debit, -5, Some(1), None));
    assert!(matches!(r, Err(TransactionError::BadRequest("amount must be > 0"))));
}

#[test]
fn validate_checks_legs_per_kind() {
    let r = validate_request(&req(TransactionType::Credit, 10, Some(1), Some(2)));
    assert!(matches!(
        r,
        Err(TransactionError::BadRequest("credit requires dest_account_id and no source_account_id"))
    ));
    let r = validate_request(&req(TransactionType::Credit, 10, None, None));
    assert!(r.is_err());
    let r = validate_request(&req(TransactionType::Debit, 10, Some(1), Some(2)));
    assert!(matches!(
        r,
        Err(TransactionError::BadRequest("debit requires source_account_id and no dest_account_id"))
    ));
    let r = validate_request(&req(TransactionType::Transfer, 10, Some(1), None));
    assert!(matches!(
        r,
        Err(TransactionError::BadRequest("transfer requires source_account_id and dest_account_id"))
    ));
    let r = validate_request(&req(TransactionType::Transfer, 10, Some(1), Some(1)));
    assert!(matches!(
        r,
        Err(TransactionError::BadRequest("transfer requires distinct source and destination accounts"))
    ));
    let r = validate_request(&req(TransactionType::Transfer, 10, Some(1), Some(2)));
    assert_eq!(r.unwrap(), (Some(1), Some(2)));
}

#[test]
fn order_ids_is_symmetric_and_sorted() {
    assert_eq!(order_ids(3, 9), (3, 9));
    assert_eq!(order_ids(9, 3), (3, 9));
    assert_eq!(order_ids(4, 4), (4, 4));
}

#[test]
fn settle_credit_adds_exactly() {
    assert_eq!(settle_credit(100, 42).unwrap(), 142);
    assert_eq!(settle_credit(0, 1).unwrap(), 1);
    assert!(matches!(settle_credit(i64::MAX, 1), Err(TransactionError::Internal)));
}

#[test]
fn settle_debit_subtracts_or_refuses() {
    assert_eq!(settle_debit(100, 42).unwrap(), 58);
    assert!(matches!(settle_debit(100, 101), Err(TransactionError::InsufficientFunds)));
    assert_eq!(settle_debit(100, 100).unwrap(), 0);
}

#[test]
fn settle_transfer_checks_currency_then_balance_then_overflow() {
    assert_eq!(settle_transfer("USD", 100, "USD", 5, 40).unwrap(), (60, 45));
    assert_eq!(settle_transfer(" USD ", 100, "USD", 5, 40).unwrap(), (60, 45));
    assert!(matches!(
        settle_transfer("USD", 100, "EUR", 5, 40),
        Err(TransactionError::BadRequest(_))
    ));
    assert!(matches!(
        settle_transfer("USD", 10, "USD", 5, 40),
        Err(TransactionError::InsufficientFunds)
    ));
    assert!(matches!(
        settle_transfer("USD", 100, "USD", i64::MAX, 40),
        Err(TransactionError::Internal)
    ));
}

#[test]
fn create_account_gives_zero_balance_and_refuses_duplicates() {
    let mut l = Ledger::new();
    let a = l.create_account(7, "ops".to_string(), "USD".to_string()).unwrap();
    assert_eq!(a.balance, 0);
    assert_eq!(a.business_id, 7);
    assert_eq!(a.name, "ops");
    // Same name under the same business is refused.
    assert!(l.create_account(7, "ops".to_string(), "USD".to_string()).is_none());
    // The same name under another business is fine.
    assert!(l.create_account(9, "ops".to_string(), "USD".to_string()).is_some());
}

#[test]
fn credit_adds_exactly_and_appends_record() {
    let mut l = ledger_with_accounts();
    let t = l
        .create_transaction(7, &req(TransactionType::Credit, 500, None, Some(0)), "{}", 1000)
        .unwrap();
    assert_eq!(l.get_account(7, 0).unwrap().balance, 500);
    assert_eq!(t.amount, 500);
    assert_eq!(t.source_account_id, None);
    assert_eq!(t.dest_account_id, Some(0));
    assert_eq!(t.created_at, 1000);
    assert_eq!(l.transactions.len(), 1);
}

#[test]
fn debit_subtracts_exactly() {
    let mut l = ledger_with_accounts();
    l.create_transaction(7, &req(TransactionType::Credit, 500, None, Some(0)), "{}", 1).unwrap();
    let t = l
        .create_transaction(7, &req(TransactionType::Debit, 123, Some(0), None), "{}", 2)
        .unwrap();
    assert_eq!(l.get_account(7, 0).unwrap().balance, 377);
    assert_eq!(t.source_account_id, Some(0));
    assert_eq!(t.dest_account_id, None);
}

#[test]
fn transfer_moves_exactly() {
    let mut l = ledger_with_accounts();
    l.create_transaction(7, &req(TransactionType::Credit, 500, None, Some(0)), "{}", 1).unwrap();
    let t = l
        .create_transaction(7, &req(TransactionType::Transfer, 200, Some(0), Some(1)), "{}", 2)
        .unwrap();
    assert_eq!(l.get_account(7, 0).unwrap().balance, 300);
    assert_eq!(l.get_account(7, 1).unwrap().balance, 200);
    assert_eq!(t.source_account_id, Some(0));
    assert_eq!(t.dest_account_id, Some(1));
}

#[test]
fn insufficient_funds_leaves_balances_unchanged() {
    let mut l = ledger_with_accounts();
    l.create_transaction(7, &req(TransactionType::Credit, 500, None, Some(0)), "{}", 1).unwrap();
    let r = l.create_transaction(7, &req(TransactionType::Debit, 600, Some(0), None), "{}", 2);
    assert!(matches!(r, Err(TransactionError::InsufficientFunds)));
    assert_eq!(l.get_account(7, 0).unwrap().balance, 500);
    assert_eq!(l.transactions.len(), 1);
    let r = l.create_transaction(7, &req(TransactionType::Transfer, 501, Some(0), Some(1)), "{}", 3);
    assert!(matches!(r, Err(TransactionError::InsufficientFunds)));
    assert_eq!(l.get_account(7, 0).unwrap().balance, 500);
    assert_eq!(l.get_account(7, 1).unwrap().balance, 0);
}

#[test]
fn currency_mismatch_fails_and_changes_nothing() {
    let mut l = ledger_with_accounts();
    l.create_transaction(7, &req(TransactionType::Credit, 500, None, Some(0)), "{}", 1).unwrap();
    let r = l.create_transaction(7, &req(TransactionType::Transfer, 100, Some(0), Some(2)), "{}", 2);
    assert!(matches!(r, Err(TransactionError::BadRequest(_))));
    assert_eq!(l.get_account(7, 0).unwrap().balance, 500);
    assert_eq!(l.get_account(7, 2).unwrap().balance, 0);
    assert_eq!(l.transactions.len(), 1);
}

#[test]
fn unknown_or_foreign_accounts_are_not_found() {
    let mut l = ledger_with_accounts();
    let r = l.create_transaction(7, &req(TransactionType::Credit, 10, None, Some(99)), "{}", 1);
    assert!(matches!(r, Err(TransactionError::NotFound)));
    // Account 3 belongs to business 9, not 7.
    let r = l.create_transaction(7, &req(TransactionType::Credit, 10, None, Some(3)), "{}", 1);
    assert!(matches!(r, Err(TransactionError::NotFound)));
    let r = l.create_transaction(7, &req(TransactionType::Transfer, 10, Some(0), Some(3)), "{}", 1);
    assert!(matches!(r, Err(TransactionError::NotFound)));
}

#[test]
fn credit_overflow_is_internal_and_changes_nothing() {
    let mut l = ledger_with_accounts();
    l.create_transaction(7, &req(TransactionType::Credit, i64::MAX, None, Some(0)), "{}", 1).unwrap();
    let r = l.create_transaction(7, &req(TransactionType::Credit, 1, None, Some(0)), "{}", 2);
    assert!(matches!(r, Err(TransactionError::Internal)));
    assert_eq!(l.get_account(7, 0).unwrap().balance, i64::MAX);
    assert_eq!(l.transactions.len(), 1);
}

#[test]
fn opposite_transfers_complete_in_either_order_with_same_net_effect() {
    // Sequential execution in both orders stands for the two interleavings
    // the row locks allow; the lock order itself is symmetric, so neither
    // order can deadlock.
    let run = |first_a_to_b: bool| -> (i64, i64) {
        let mut l = Ledger::new();
        l.create_account(7, "a".to_string(), "USD".to_string()).unwrap();
        l.create_account(7, "b".to_string(), "USD".to_string()).unwrap();
        l.create_transaction(7, &req(TransactionType::Credit, 1000, None, Some(0)), "{}", 1).unwrap();
        l.create_transaction(7, &req(TransactionType::Credit, 1000, None, Some(1)), "{}", 2).unwrap();
        let ab = req(TransactionType::Transfer, 300, Some(0), Some(1));
        let ba = req(TransactionType::Transfer, 120, Some(1), Some(0));
        if first_a_to_b {
            l.create_transaction(7, &ab, "{}", 3).unwrap();
            l.create_transaction(7, &ba, "{}", 4).unwrap();
        } else {
            l.create_transaction(7, &ba, "{}", 3).unwrap();
            l.create_transaction(7, &ab, "{}", 4).unwrap();
        }
        (l.get_account(7, 0).unwrap().balance, l.get_account(7, 1).unwrap().balance)
    };
    assert_eq!(run(true), (820, 1180));
    assert_eq!(run(false), (820, 1180));
}

#[test]
fn reads_are_idempotent() {
    let mut l = ledger_with_accounts();
    l.create_transaction(7, &req(TransactionType::Credit, 500, None, Some(0)), "{}", 1).unwrap();
    let a1 = l.get_account(7, 0).unwrap();
    let a2 = l.get_account(7, 0).unwrap();
    assert_eq!(a1.id, a2.id);
    assert_eq!(a1.business_id, a2.business_id);
    assert_eq!(a1.name, a2.name);
    assert_eq!(a1.currency, a2.currency);
    assert_eq!(a1.balance, a2.balance);
    let t1 = l.get_transaction(7, 0).unwrap();
    let t2 = l.get_transaction(7, 0).unwrap();
    assert_eq!(t1.id, t2.id);
    assert_eq!(t1.amount, t2.amount);
    assert_eq!(t1.created_at, t2.created_at);
    // Scoping: another business sees nothing.
    assert!(l.get_account(9, 0).is_none());
    assert!(l.get_transaction(9, 0).is_none());
}

#[test]
fn listings_are_scoped_and_newest_first() {
    let mut l = ledger_with_accounts();
    let accounts = l.list_accounts(7);
    assert_eq!(accounts.len(), 3);
    assert_eq!(accounts[0].id, 2);
    assert_eq!(accounts[1].id, 1);
    assert_eq!(accounts[2].id, 0);
    assert_eq!(l.list_accounts(9).len(), 1);

    l.create_transaction(7, &req(TransactionType::Credit, 10, None, Some(0)), "{}", 1).unwrap();
    l.create_transaction(7, &req(TransactionType::Credit, 20, None, Some(0)), "{}", 2).unwrap();
    l.create_transaction(9, &req(TransactionType::Credit, 30, None, Some(3)), "{}", 3).unwrap();
    l.create_transaction(7, &req(TransactionType::Credit, 40, None, Some(1)), "{}", 4).unwrap();
    let ts = l.list_transactions(7, 100);
    assert_eq!(ts.len(), 3);
    assert_eq!(ts[0].amount, 40);
    assert_eq!(ts[1].amount, 20);
    assert_eq!(ts[2].amount, 10);
    let capped = l.list_transactions(7, 2);
    assert_eq!(capped.len(), 2);
    assert_eq!(capped[0].amount, 40);
    assert_eq!(capped[1].amount, 20);
}

#[test]
fn end_to_end_scenario() {
    // Create account A (USD, balance 0); credit 500; an over-debit and a
    // cross-currency transfer both fail and change nothing.
    let mut l = Ledger::new();
    let a = l.create_account(7, "A".to_string(), "USD".to_string()).unwrap();
    assert_eq!(a.balance, 0);
    l.create_webhook_endpoint(7, "https://one.example/hook".to_string(), 0);
    l.create_webhook_endpoint(7, "https://two.example/hook".to_string(), 0);

    let t = l
        .create_transaction(7, &req(TransactionType::Credit, 500, None, Some(a.id)), "{\"amount\":500}", 10)
        .unwrap();
    assert_eq!(l.get_account(7, a.id).unwrap().balance, 500);
    assert_eq!(l.transactions.len(), 1);
    // The same atomic step fanned the movement out: one pending record per
    // active endpoint, payload frozen.
    assert_eq!(l.events.len(), 2);
    assert_eq!(l.events[0].transaction_id, t.id);
    assert_eq!(l.events[1].transaction_id, t.id);
    assert_eq!(l.events[0].payload, "{\"amount\":500}");

    let r = l.create_transaction(7, &req(TransactionType::Debit, 600, Some(a.id), None), "{}", 11);
    assert!(matches!(r, Err(TransactionError::InsufficientFunds)));
    assert_eq!(l.get_account(7, a.id).unwrap().balance, 500);
    assert_eq!(l.transactions.len(), 1);
    // A movement that did not happen enqueued nothing.
    assert_eq!(l.events.len(), 2);

    let b = l.create_account(7, "B".to_string(), "EUR".to_string()).unwrap();
    let r = l.create_transaction(
        7,
        &req(TransactionType::Transfer, 100, Some(a.id), Some(b.id)),
        "{}",
        12,
    );
    assert!(matches!(r, Err(TransactionError::BadRequest(_))));
    assert_eq!(l.get_account(7, a.id).unwrap().balance, 500);
    assert_eq!(l.get_account(7, b.id).unwrap().balance, 0);
    assert_eq!(l.transactions.len(), 1);
}

#[test]
fn transaction_error_maps_to_status_and_message() {
    assert_eq!(TransactionError::BadRequest("amount must be > 0").status_code(), 400);
    assert_eq!(TransactionError::NotFound.status_code(), 404);
    assert_eq!(TransactionError::InsufficientFunds.status_code(), 400);
    assert_eq!(TransactionError::Internal.status_code(), 500);
    assert_eq!(TransactionError::BadRequest("amount must be > 0").message(), "amount must be > 0");
    assert_eq!(TransactionError::InsufficientFunds.message(), "insufficient funds");
}
