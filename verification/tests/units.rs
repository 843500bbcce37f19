use account_ledger::account::AccountModel;
use account_ledger::account_log::AccountLogModel;
use account_ledger::action_type::{ActionTypeModel, Change};
use account_ledger::error::Error;
use account_ledger::service::AccountService;

fn row(id: i32, user_id: i32, asset_type_id: i32, available: i64) -> AccountModel {
    AccountModel {
        id,
        user_id,
        asset_type_id,
        available_balance: available,
        frozen_balance: 0,
        total_income: 0,
        total_expense: 0,
        is_active: true,
    }
}

fn dec_available(id: i32) -> ActionTypeModel {
    ActionTypeModel {
        id,
        name: String::from("withdraw"),
        description: String::from("decrease the available balance"),
        available_balance_change: Change::Dec,
        frozen_balance_change: Change::Nop,
        total_income_change: Change::Nop,
        total_expense_change: Change::Inc,
        is_active: true,
    }
}

#[test]
fn calculate_change_signs_the_magnitude() {
    assert_eq!(Change::Inc.calculate_change(5), 5);
    assert_eq!(Change::Dec.calculate_change(5), -5);
    assert_eq!(Change::Nop.calculate_change(5), 0);
    assert_eq!(Change::Inc.calculate_change(-5), 5);
    assert_eq!(Change::Dec.calculate_change(-5), -5);
    assert_eq!(Change::Nop.calculate_change(-5), 0);
    assert_eq!(Change::Dec.calculate_change(0), 0);
}

#[test]
fn account_store_find_and_exists() {
    let accounts = vec![row(1, 1, 1, 10), row(2, 1, 2, 20), row(3, 2, 1, 30)];
    assert_eq!(AccountModel::find(&accounts, 1, 2).unwrap().id, 2);
    assert_eq!(AccountModel::find(&accounts, 2, 2), None);
    assert!(AccountModel::is_exists(&accounts, 2, 1));
    assert!(!AccountModel::is_exists(&accounts, 9, 9));
    assert!(AccountModel::is_active(&accounts, 1, 1));
    assert!(!AccountModel::is_active(&accounts, 9, 9));
}

#[test]
fn account_store_update_balance_is_relative() {
    let mut accounts = vec![row(1, 1, 1, 100), row(2, 2, 1, 50)];
    let updated =
        AccountModel::update_balance(&mut accounts, 1, 1, -30, 5, 0, 30).unwrap();
    assert_eq!(updated.available_balance, 70);
    assert_eq!(updated.frozen_balance, 5);
    assert_eq!(updated.total_expense, 30);
    assert_eq!(accounts[0].available_balance, 70);
    assert_eq!(accounts[1].available_balance, 50);
    assert_eq!(
        AccountModel::update_balance(&mut accounts, 9, 9, 1, 0, 0, 0),
        Err(Error::NotFound)
    );
    assert_eq!(
        AccountModel::update_balance(&mut accounts, 1, 1, i64::MAX, 0, 0, 0),
        Err(Error::Internal)
    );
    assert_eq!(accounts[0].available_balance, 70);
}

#[test]
fn log_store_probe_and_uniqueness() {
    let committed = Vec::new();
    let mut tx_logs = Vec::new();
    let outcome = AccountLogModel::create(
        &committed,
        &mut tx_logs,
        1,
        1,
        2,
        -5,
        0,
        0,
        5,
        95,
        0,
        0,
        5,
        String::from("abcdefghijklmnopqrstuvwxyz012345"),
        String::from("first"),
    );
    assert_eq!(outcome, Ok(()));
    assert_eq!(tx_logs.len(), 1);
    assert!(AccountLogModel::is_exists(
        &tx_logs,
        1,
        2,
        &String::from("abcdefghijklmnopqrstuvwxyz012345")
    ));
    assert!(!AccountLogModel::is_exists(
        &tx_logs,
        1,
        3,
        &String::from("abcdefghijklmnopqrstuvwxyz012345")
    ));
    // The same triple again hits the uniqueness constraint.
    let duplicate = AccountLogModel::create(
        &committed,
        &mut tx_logs,
        2,
        1,
        2,
        -5,
        0,
        0,
        5,
        90,
        0,
        0,
        10,
        String::from("abcdefghijklmnopqrstuvwxyz012345"),
        String::from("second"),
    );
    assert_eq!(duplicate, Err(Error::Conflict));
    assert_eq!(tx_logs.len(), 1);
}

#[test]
fn action_type_catalog_ignores_inactive_rows() {
    let mut inactive = dec_available(7);
    inactive.is_active = false;
    let rows = vec![dec_available(2), inactive];
    assert_eq!(ActionTypeModel::by_id(&rows, 2).unwrap().id, 2);
    assert!(ActionTypeModel::by_id(&rows, 7).is_none());
    assert!(ActionTypeModel::is_active(&rows, 2));
    assert!(!ActionTypeModel::is_active(&rows, 7));
    assert!(!ActionTypeModel::is_active(&rows, 99));
}

#[test]
fn balance_checks_guard_decrements_only() {
    let at = dec_available(2);
    let account = row(1, 1, 1, 100);
    assert_eq!(
        AccountService::check_balance_before_update(&at, &account, 100),
        Ok(())
    );
    assert_eq!(
        AccountService::check_balance_before_update(&at, &account, 101),
        Err(Error::InsufficientBalance)
    );
    let mut overdrawn = row(1, 1, 1, -1);
    assert_eq!(
        AccountService::check_balance_after_update(&at, &overdrawn),
        Err(Error::InsufficientBalance)
    );
    overdrawn.available_balance = 0;
    assert_eq!(
        AccountService::check_balance_after_update(&at, &overdrawn),
        Ok(())
    );
}

#[test]
fn error_text_names_every_kind() {
    assert_eq!(Error::Validation.as_text(), "validation");
    assert_eq!(Error::NotFound.as_text(), "not_found");
    assert_eq!(Error::Forbidden.as_text(), "forbidden");
    assert_eq!(Error::Conflict.as_text(), "conflict");
    assert_eq!(Error::InsufficientBalance.as_text(), "insufficient_balance");
    assert_eq!(Error::Internal.as_text(), "internal");
}
