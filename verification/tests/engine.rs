use account_ledger::account::AccountModel;
use account_ledger::account_log::AccountLogModel;
use account_ledger::action_type::{ActionTypeModel, Change};
use account_ledger::asset_type::AssetTypeModel;
use account_ledger::error::Error;
use account_ledger::request::{AccountActionRequest, AccountRequest};
use account_ledger::service::AccountService;

fn asset_type(id: i32, active: bool) -> AssetTypeModel {
    AssetTypeModel {
        id,
        name: format!("asset-{}", id),
        description: String::from("an asset type"),
        is_active: active,
    }
}

fn action_type(
    id: i32,
    available: Change,
    frozen: Change,
    income: Change,
    expense: Change,
    active: bool,
) -> ActionTypeModel {
    ActionTypeModel {
        id,
        name: format!("action-{}", id),
        description: String::from("an action type"),
        available_balance_change: available,
        frozen_balance_change: frozen,
        total_income_change: income,
        total_expense_change: expense,
        is_active: active,
    }
}

/// Action type 1 increments the available balance (and total income);
/// action type 2 decrements the available balance (and total expense).
fn service() -> AccountService {
    AccountService::new(
        vec![asset_type(1, true), asset_type(9, false)],
        vec![
            action_type(1, Change::Inc, Change::Nop, Change::Inc, Change::Nop, true),
            action_type(2, Change::Dec, Change::Nop, Change::Nop, Change::Inc, true),
            action_type(3, Change::Nop, Change::Inc, Change::Nop, Change::Nop, true),
            action_type(4, Change::Nop, Change::Dec, Change::Nop, Change::Nop, true),
            action_type(8, Change::Inc, Change::Nop, Change::Nop, Change::Nop, false),
        ],
    )
}

fn request(action_type_id: i32, amount: i64, order: &str) -> AccountActionRequest {
    AccountActionRequest {
        user_id: 1,
        asset_type_id: 1,
        action_type_id,
        amount,
        order_number: String::from(order),
        description: String::from("a test action"),
    }
}

fn order(tag: &str) -> String {
    let mut s = String::from(tag);
    while s.len() < 32 {
        s.push('x');
    }
    s
}

#[test]
fn create_and_info() {
    let mut s = service();
    let req = AccountRequest { user_id: 1, asset_type_id: 1 };
    let account = s.create(&req).unwrap();
    assert_eq!(account.id, 1);
    assert_eq!(account.user_id, 1);
    assert_eq!(account.asset_type_id, 1);
    assert_eq!(account.available_balance, 0);
    assert_eq!(account.frozen_balance, 0);
    assert_eq!(account.total_income, 0);
    assert_eq!(account.total_expense, 0);
    assert!(account.is_active);
    let looked_up = s.info(&req).unwrap();
    assert_eq!(looked_up, account);
}

#[test]
fn create_duplicate_is_conflict() {
    let mut s = service();
    let req = AccountRequest { user_id: 1, asset_type_id: 1 };
    s.create(&req).unwrap();
    assert_eq!(s.create(&req), Err(Error::Conflict));
}

#[test]
fn create_rejects_bad_requests() {
    let mut s = service();
    assert_eq!(
        s.create(&AccountRequest { user_id: 0, asset_type_id: 1 }),
        Err(Error::Validation)
    );
    assert_eq!(
        s.create(&AccountRequest { user_id: 1, asset_type_id: 7 }),
        Err(Error::Validation)
    );
    // An inactive asset type is as good as absent.
    assert_eq!(
        s.create(&AccountRequest { user_id: 1, asset_type_id: 9 }),
        Err(Error::Validation)
    );
}

#[test]
fn info_unknown_account_is_not_found() {
    let s = service();
    assert_eq!(
        s.info(&AccountRequest { user_id: 3, asset_type_id: 1 }),
        Err(Error::NotFound)
    );
}

/// The worked scenario: start at 100.000000 available; Dec 60.5 succeeds
/// and leaves 39.500000 and one log row; the same order again is a
/// Conflict; another Dec 60.5 is an InsufficientBalance; the balance
/// stays 39.500000 throughout.
#[test]
fn decrement_conflict_and_floor_scenario() {
    let mut s = service();
    let key = AccountRequest { user_id: 1, asset_type_id: 1 };
    s.create(&key).unwrap();
    s.actions(&vec![request(1, 100_000_000, &order("fund"))]).unwrap();
    assert_eq!(s.info(&key).unwrap().available_balance, 100_000_000);

    let dec = request(2, 60_500_000, &order("A"));
    s.actions(&vec![dec]).unwrap();
    assert_eq!(s.info(&key).unwrap().available_balance, 39_500_000);
    assert_eq!(s.account_logs.len(), 2);

    let replay = request(2, 60_500_000, &order("A"));
    assert_eq!(s.actions(&vec![replay]), Err(Error::Conflict));
    assert_eq!(s.info(&key).unwrap().available_balance, 39_500_000);
    assert_eq!(s.account_logs.len(), 2);

    let broke = request(2, 60_500_000, &order("B"));
    assert_eq!(s.actions(&vec![broke]), Err(Error::InsufficientBalance));
    assert_eq!(s.info(&key).unwrap().available_balance, 39_500_000);
    assert_eq!(s.account_logs.len(), 2);
}

/// Two decrement batches against one account, serialized one after the
/// other; each affordable alone, together over the balance: exactly one
/// succeeds, the other fails with InsufficientBalance, and the final
/// balance is never negative.
#[test]
fn concurrent_decrements_one_wins() {
    let mut s = service();
    let key = AccountRequest { user_id: 1, asset_type_id: 1 };
    s.create(&key).unwrap();
    s.actions(&vec![request(1, 100_000_000, &order("fund"))]).unwrap();

    let first = s.actions(&vec![request(2, 60_000_000, &order("left"))]);
    let second = s.actions(&vec![request(2, 60_000_000, &order("right"))]);
    assert_eq!(first, Ok(()));
    assert_eq!(second, Err(Error::InsufficientBalance));
    let balance = s.info(&key).unwrap().available_balance;
    assert_eq!(balance, 40_000_000);
    assert!(balance >= 0);
}

/// A batch whose later request fails leaves nothing of the batch behind,
/// not even the effects of its earlier requests.
#[test]
fn failing_batch_applies_nothing() {
    let mut s = service();
    let key = AccountRequest { user_id: 1, asset_type_id: 1 };
    s.create(&key).unwrap();
    s.actions(&vec![request(1, 100_000_000, &order("fund"))]).unwrap();

    let batch = vec![
        request(1, 5_000_000, &order("one")),
        request(2, 200_000_000, &order("two")),
    ];
    assert_eq!(s.actions(&batch), Err(Error::InsufficientBalance));
    assert_eq!(s.info(&key).unwrap().available_balance, 100_000_000);
    assert_eq!(s.account_logs.len(), 1);
}

/// A decrement that two batch members can only jointly afford is caught
/// by the authoritative in-transaction check even when each passes the
/// advisory pre-pass against the committed state.
#[test]
fn in_transaction_check_catches_joint_overdraft() {
    let mut s = service();
    let key = AccountRequest { user_id: 1, asset_type_id: 1 };
    s.create(&key).unwrap();
    s.actions(&vec![request(1, 100_000_000, &order("fund"))]).unwrap();

    let batch = vec![
        request(2, 60_000_000, &order("first")),
        request(2, 60_000_000, &order("second")),
    ];
    assert_eq!(s.actions(&batch), Err(Error::InsufficientBalance));
    assert_eq!(s.info(&key).unwrap().available_balance, 100_000_000);
    assert_eq!(s.account_logs.len(), 1);
}

#[test]
fn conservation_balances_equal_delta_sums() {
    let mut s = service();
    let key = AccountRequest { user_id: 1, asset_type_id: 1 };
    let account = s.create(&key).unwrap();
    s.actions(&vec![request(1, 70_000_000, &order("a"))]).unwrap();
    s.actions(&vec![
        request(2, 10_000_000, &order("b")),
        request(3, 4_000_000, &order("c")),
    ])
    .unwrap();
    s.actions(&vec![request(4, 1_000_000, &order("d"))]).unwrap();

    let mut available: i64 = 0;
    let mut frozen: i64 = 0;
    let mut income: i64 = 0;
    let mut expense: i64 = 0;
    for log in s.account_logs.iter().filter(|l| l.account_id == account.id) {
        available += log.amount_available_balance;
        frozen += log.amount_frozen_balance;
        income += log.amount_total_income;
        expense += log.amount_total_expense;
    }
    let row = s.info(&key).unwrap();
    assert_eq!(row.available_balance, available);
    assert_eq!(row.frozen_balance, frozen);
    assert_eq!(row.total_income, income);
    assert_eq!(row.total_expense, expense);
    assert_eq!(row.available_balance, 60_000_000);
    assert_eq!(row.frozen_balance, 3_000_000);
    assert_eq!(row.total_income, 70_000_000);
    assert_eq!(row.total_expense, 10_000_000);
}

#[test]
fn log_records_hold_deltas_and_balances_after() {
    let mut s = service();
    s.create(&AccountRequest { user_id: 1, asset_type_id: 1 }).unwrap();
    s.actions(&vec![request(1, 25_000_000, &order("in"))]).unwrap();
    s.actions(&vec![request(2, 5_000_000, &order("out"))]).unwrap();

    let first: &AccountLogModel = &s.account_logs[0];
    assert_eq!(first.account_id, 1);
    assert_eq!(first.action_type_id, 1);
    assert_eq!(first.amount_available_balance, 25_000_000);
    assert_eq!(first.amount_total_income, 25_000_000);
    assert_eq!(first.available_balance_after, 25_000_000);
    assert_eq!(first.order_number, order("in"));

    let second: &AccountLogModel = &s.account_logs[1];
    assert_eq!(second.id, 2);
    assert_eq!(second.amount_available_balance, -5_000_000);
    assert_eq!(second.amount_total_expense, 5_000_000);
    assert_eq!(second.available_balance_after, 20_000_000);
    assert_eq!(second.total_expense_after, 5_000_000);
}

#[test]
fn actions_unknown_account_is_not_found() {
    let mut s = service();
    assert_eq!(
        s.actions(&vec![request(1, 1_000_000, &order("nobody"))]),
        Err(Error::NotFound)
    );
}

#[test]
fn actions_inactive_account_is_forbidden() {
    let mut s = service();
    // A deactivated account, as an administrative path would leave it.
    s.accounts.push(AccountModel {
        id: 1,
        user_id: 1,
        asset_type_id: 1,
        available_balance: 0,
        frozen_balance: 0,
        total_income: 0,
        total_expense: 0,
        is_active: false,
    });
    s.next_account_id = 2;
    assert_eq!(
        s.actions(&vec![request(1, 1_000_000, &order("frozen-out"))]),
        Err(Error::Forbidden)
    );
}

#[test]
fn actions_rejects_malformed_requests() {
    let mut s = service();
    s.create(&AccountRequest { user_id: 1, asset_type_id: 1 }).unwrap();

    let mut bad_user = request(1, 1_000_000, &order("v"));
    bad_user.user_id = 0;
    assert_eq!(s.actions(&vec![bad_user]), Err(Error::Validation));

    let mut bad_asset = request(1, 1_000_000, &order("v"));
    bad_asset.asset_type_id = 7;
    assert_eq!(s.actions(&vec![bad_asset]), Err(Error::Validation));

    let zero_amount = request(1, 0, &order("v"));
    assert_eq!(s.actions(&vec![zero_amount]), Err(Error::Validation));

    let mut short_order = request(1, 1_000_000, &order("v"));
    short_order.order_number = String::from("too-short");
    assert_eq!(s.actions(&vec![short_order]), Err(Error::Validation));

    let mut no_description = request(1, 1_000_000, &order("v"));
    no_description.description = String::new();
    assert_eq!(s.actions(&vec![no_description]), Err(Error::Validation));
}

#[test]
fn actions_unknown_action_type_is_not_found() {
    let mut s = service();
    s.create(&AccountRequest { user_id: 1, asset_type_id: 1 }).unwrap();

    // An id the catalog has never held.
    let unknown = request(42, 1_000_000, &order("u"));
    assert_eq!(s.actions(&vec![unknown]), Err(Error::NotFound));

    // An inactive catalog row is as good as absent.
    let inactive = request(8, 1_000_000, &order("i"));
    assert_eq!(s.actions(&vec![inactive]), Err(Error::NotFound));
    assert_eq!(s.account_logs.len(), 0);
}

#[test]
fn empty_batch_is_ok_and_changes_nothing() {
    let mut s = service();
    s.create(&AccountRequest { user_id: 1, asset_type_id: 1 }).unwrap();
    assert_eq!(s.actions(&Vec::new()), Ok(()));
    assert_eq!(s.account_logs.len(), 0);
}

#[test]
fn balance_overflow_is_internal_and_rolls_back() {
    let mut s = service();
    let key = AccountRequest { user_id: 1, asset_type_id: 1 };
    s.create(&key).unwrap();
    s.actions(&vec![request(1, i64::MAX, &order("all"))]).unwrap();
    assert_eq!(s.info(&key).unwrap().available_balance, i64::MAX);
    assert_eq!(
        s.actions(&vec![request(1, 1, &order("straw"))]),
        Err(Error::Internal)
    );
    assert_eq!(s.info(&key).unwrap().available_balance, i64::MAX);
    assert_eq!(s.account_logs.len(), 1);
}

#[test]
fn increments_may_drive_income_negative_but_not_available() {
    // A decrement of total_income is never range-checked: only the
    // available and frozen balances have the floor.
    let mut s = AccountService::new(
        vec![asset_type(1, true)],
        vec![action_type(5, Change::Nop, Change::Nop, Change::Dec, Change::Nop, true)],
    );
    let key = AccountRequest { user_id: 1, asset_type_id: 1 };
    s.create(&key).unwrap();
    s.actions(&vec![AccountActionRequest {
        user_id: 1,
        asset_type_id: 1,
        action_type_id: 5,
        amount: 3_000_000,
        order_number: order("correction"),
        description: String::from("out-of-band correction"),
    }])
    .unwrap();
    let row = s.info(&key).unwrap();
    assert_eq!(row.total_income, -3_000_000);
    assert_eq!(row.available_balance, 0);
}
