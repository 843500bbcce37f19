use vstd::prelude::*;
use crate::error::Error;

verus! {

/// One account row: the balance-holding record for a (user, asset type) pair.
/// All balances are fixed-point values in millionths of a unit.
#[derive(Clone, Copy, Debug, PartialEq, Eq, Structural)]
pub struct AccountModel {
    pub id: i32,
    pub user_id: i32,
    pub asset_type_id: i32,
    pub available_balance: i64,
    pub frozen_balance: i64,
    pub total_income: i64,
    pub total_expense: i64,
    pub is_active: bool,
}

/// Whether a row is the one keyed by (user_id, asset_type_id).
pub open spec fn key_matches(a: AccountModel, user_id: i32, asset_type_id: i32) -> bool {
    a.user_id == user_id && a.asset_type_id == asset_type_id
}

/// The index of the first row with the given key, if any, starting at `i`.
pub open spec fn spec_find_index_from(
    accounts: Seq<AccountModel>,
    user_id: i32,
    asset_type_id: i32,
    i: int,
) -> Option<int>
    decreases accounts.len() - i,
{
    if i < 0 || i >= accounts.len() {
        None
    } else if key_matches(accounts[i], user_id, asset_type_id) {
        Some(i)
    } else {
        spec_find_index_from(accounts, user_id, asset_type_id, i + 1)
    }
}

/// The index of the first row with the given key, if any.
pub open spec fn spec_find_index(
    accounts: Seq<AccountModel>,
    user_id: i32,
    asset_type_id: i32,
) -> Option<int> {
    spec_find_index_from(accounts, user_id, asset_type_id, 0)
}

/// The first row with the given key, if any.
pub open spec fn spec_find(
    accounts: Seq<AccountModel>,
    user_id: i32,
    asset_type_id: i32,
) -> Option<AccountModel> {
    match spec_find_index(accounts, user_id, asset_type_id) {
        Some(i) => Some(accounts[i]),
        None => None,
    }
}

/// A found index is in range, matches the key, and nothing before it does.
pub proof fn lemma_find_index_from_props(
    accounts: Seq<AccountModel>,
    user_id: i32,
    asset_type_id: i32,
    i: int,
)
    requires
        0 <= i <= accounts.len(),
    ensures
        match spec_find_index_from(accounts, user_id, asset_type_id, i) {
            Some(j) => i <= j < accounts.len() && key_matches(accounts[j], user_id, asset_type_id)
                && forall|k: int|
                i <= k < j ==> !key_matches(accounts[k], user_id, asset_type_id),
            None => forall|j: int|
                i <= j < accounts.len() ==> !key_matches(accounts[j], user_id, asset_type_id),
        },
    decreases accounts.len() - i,
{
    if i < accounts.len() && !key_matches(accounts[i], user_id, asset_type_id) {
        lemma_find_index_from_props(accounts, user_id, asset_type_id, i + 1);
    }
}

/// Replacing the found row by one with the same key leaves the lookup
/// finding that row, at the same index.
pub proof fn lemma_find_index_update(
    accounts: Seq<AccountModel>,
    user_id: i32,
    asset_type_id: i32,
    i: int,
    b: AccountModel,
)
    requires
        spec_find_index(accounts, user_id, asset_type_id) == Some(i),
        key_matches(b, user_id, asset_type_id),
    ensures
        spec_find_index(accounts.update(i, b), user_id, asset_type_id) == Some(i),
{
    lemma_find_index_from_props(accounts, user_id, asset_type_id, 0);
    lemma_find_index_update_from(accounts, user_id, asset_type_id, i, b, 0);
}

proof fn lemma_find_index_update_from(
    accounts: Seq<AccountModel>,
    user_id: i32,
    asset_type_id: i32,
    i: int,
    b: AccountModel,
    j: int,
)
    requires
        0 <= j <= i < accounts.len(),
        key_matches(b, user_id, asset_type_id),
        forall|k: int| 0 <= k < i ==> !key_matches(accounts[k], user_id, asset_type_id),
    ensures
        spec_find_index_from(accounts.update(i, b), user_id, asset_type_id, j) == Some(i),
    decreases i - j,
{
    if j < i {
        lemma_find_index_update_from(accounts, user_id, asset_type_id, i, b, j + 1);
    }
}

/// The row with the four deltas added to its four balances.
pub open spec fn spec_with_deltas(
    a: AccountModel,
    d_available: int,
    d_frozen: int,
    d_income: int,
    d_expense: int,
) -> AccountModel {
    AccountModel {
        available_balance: (a.available_balance + d_available) as i64,
        frozen_balance: (a.frozen_balance + d_frozen) as i64,
        total_income: (a.total_income + d_income) as i64,
        total_expense: (a.total_expense + d_expense) as i64,
        ..a
    }
}

/// Whether all four updated balances stay within the machine range.
pub open spec fn spec_deltas_fit(
    a: AccountModel,
    d_available: int,
    d_frozen: int,
    d_income: int,
    d_expense: int,
) -> bool {
    &&& i64::MIN <= a.available_balance + d_available <= i64::MAX
    &&& i64::MIN <= a.frozen_balance + d_frozen <= i64::MAX
    &&& i64::MIN <= a.total_income + d_income <= i64::MAX
    &&& i64::MIN <= a.total_expense + d_expense <= i64::MAX
}

/// The relative balance update: the store rows after adding the four deltas
/// to the row with the given key, and the row as returned.
/// `NotFound` when no row has the key; `Internal` when a sum would leave the
/// machine range.
pub open spec fn spec_update_balance(
    accounts: Seq<AccountModel>,
    user_id: i32,
    asset_type_id: i32,
    d_available: int,
    d_frozen: int,
    d_income: int,
    d_expense: int,
) -> Result<(Seq<AccountModel>, AccountModel), Error> {
    match spec_find_index(accounts, user_id, asset_type_id) {
        None => Err(Error::NotFound),
        Some(i) => {
            let a = accounts[i];
            if spec_deltas_fit(a, d_available, d_frozen, d_income, d_expense) {
                let updated = spec_with_deltas(a, d_available, d_frozen, d_income, d_expense);
                Ok((accounts.update(i, updated), updated))
            } else {
                Err(Error::Internal)
            }
        },
    }
}

impl AccountModel {
    /// The index of the row with the given key.
    fn find_index(accounts: &Vec<AccountModel>, user_id: i32, asset_type_id: i32) -> (r: Option<
        usize,
    >)
        ensures
            match r {
                Some(i) => spec_find_index(accounts@, user_id, asset_type_id) == Some(i as int),
                None => spec_find_index(accounts@, user_id, asset_type_id) is None,
            },
    {
        let mut i: usize = 0;
        while i < accounts.len()
            invariant
                0 <= i <= accounts.len(),
                spec_find_index(accounts@, user_id, asset_type_id) == spec_find_index_from(
                    accounts@,
                    user_id,
                    asset_type_id,
                    i as int,
                ),
            decreases accounts.len() - i,
        {
            if accounts[i].user_id == user_id && accounts[i].asset_type_id == asset_type_id {
                return Some(i);
            }
            i = i + 1;
        }
        None
    }

    /// Insert a new row with the given id, all balances at zero and
    /// `is_active` set. The engine checks for a key conflict before calling.
    pub fn create(
        accounts: &mut Vec<AccountModel>,
        id: i32,
        user_id: i32,
        asset_type_id: i32,
    ) -> (r: AccountModel)
        requires
            spec_find_index(old(accounts)@, user_id, asset_type_id) is None,
        ensures
            r == (AccountModel {
                id,
                user_id,
                asset_type_id,
                available_balance: 0,
                frozen_balance: 0,
                total_income: 0,
                total_expense: 0,
                is_active: true,
            }),
            final(accounts)@ == old(accounts)@.push(r),
    {
        let account = AccountModel {
            id,
            user_id,
            asset_type_id,
            available_balance: 0,
            frozen_balance: 0,
            total_income: 0,
            total_expense: 0,
            is_active: true,
        };
        accounts.push(account);
        account
    }

    /// Point lookup by (user_id, asset_type_id). Absence is not an error
    /// at this layer.
    pub fn find(accounts: &Vec<AccountModel>, user_id: i32, asset_type_id: i32) -> (r: Option<
        AccountModel,
    >)
        ensures
            r == spec_find(accounts@, user_id, asset_type_id),
    {
        proof {
            lemma_find_index_from_props(accounts@, user_id, asset_type_id, 0);
        }
        match AccountModel::find_index(accounts, user_id, asset_type_id) {
            Some(i) => Some(accounts[i]),
            None => None,
        }
    }

    /// Atomic relative update: add the four signed deltas to the row with
    /// the given key and return the row as updated.
    pub fn update_balance(
        accounts: &mut Vec<AccountModel>,
        user_id: i32,
        asset_type_id: i32,
        amount_available_balance: i64,
        amount_frozen_balance: i64,
        amount_total_income: i64,
        amount_total_expense: i64,
    ) -> (r: Result<AccountModel, Error>)
        ensures
            match r {
                Ok(a) => spec_update_balance(
                    old(accounts)@,
                    user_id,
                    asset_type_id,
                    amount_available_balance as int,
                    amount_frozen_balance as int,
                    amount_total_income as int,
                    amount_total_expense as int,
                ) == Ok::<_, Error>((final(accounts)@, a)),
                Err(e) => {
                    &&& spec_update_balance(
                        old(accounts)@,
                        user_id,
                        asset_type_id,
                        amount_available_balance as int,
                        amount_frozen_balance as int,
                        amount_total_income as int,
                        amount_total_expense as int,
                    ) == Err::<(Seq<AccountModel>, AccountModel), _>(e)
                    &&& final(accounts)@ == old(accounts)@
                },
            },
    {
        let index = match AccountModel::find_index(accounts, user_id, asset_type_id) {
            Some(i) => i,
            None => {
                return Err(Error::NotFound);
            },
        };
        proof {
            lemma_find_index_from_props(accounts@, user_id, asset_type_id, 0);
        }
        let a = accounts[index];
        let available_balance = match a.available_balance.checked_add(amount_available_balance) {
            Some(v) => v,
            None => {
                return Err(Error::Internal);
            },
        };
        let frozen_balance = match a.frozen_balance.checked_add(amount_frozen_balance) {
            Some(v) => v,
            None => {
                return Err(Error::Internal);
            },
        };
        let total_income = match a.total_income.checked_add(amount_total_income) {
            Some(v) => v,
            None => {
                return Err(Error::Internal);
            },
        };
        let total_expense = match a.total_expense.checked_add(amount_total_expense) {
            Some(v) => v,
            None => {
                return Err(Error::Internal);
            },
        };
        let updated = AccountModel {
            available_balance,
            frozen_balance,
            total_income,
            total_expense,
            ..a
        };
        accounts[index] = updated;
        Ok(updated)
    }

    /// Whether a row with the given key exists.
    pub fn is_exists(accounts: &Vec<AccountModel>, user_id: i32, asset_type_id: i32) -> (r: bool)
        ensures
            r == (spec_find(accounts@, user_id, asset_type_id) is Some),
    {
        AccountModel::find_index(accounts, user_id, asset_type_id).is_some()
    }

    /// Whether a row with the given key exists and is active.
    pub fn is_active(accounts: &Vec<AccountModel>, user_id: i32, asset_type_id: i32) -> (r: bool)
        ensures
            r == match spec_find(accounts@, user_id, asset_type_id) {
                Some(a) => a.is_active,
                None => false,
            },
    {
        proof {
            lemma_find_index_from_props(accounts@, user_id, asset_type_id, 0);
        }
        match AccountModel::find_index(accounts, user_id, asset_type_id) {
            Some(i) => accounts[i].is_active,
            None => false,
        }
    }
}

} // verus!
