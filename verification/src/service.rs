use vstd::prelude::*;
use crate::account::{
    AccountModel, lemma_find_index_from_props, spec_deltas_fit, spec_find, spec_find_index,
    spec_update_balance, spec_with_deltas,
};
use crate::account_log::{AccountLogModel, spec_log_exists, triple_matches};
use crate::action_type::{ActionTypeModel, Change, spec_action_type, spec_change};
use crate::asset_type::AssetTypeModel;
use crate::error::Error;
use crate::request::{
    AccountActionRequest, AccountRequest, spec_account_request_valid, spec_action_request_valid,
};

verus! {

/// The ledger engine: the two catalogs, loaded once and then read-only, and
/// the persisted state — the account rows and the append-only action log —
/// together with the id sequences the store would keep.
pub struct AccountService {
    pub asset_types: Vec<AssetTypeModel>,
    pub action_types: Vec<ActionTypeModel>,
    pub accounts: Vec<AccountModel>,
    pub account_logs: Vec<AccountLogModel>,
    pub next_account_id: i32,
    pub next_log_id: i64,
}

/// The mathematical state of the ledger.
#[verifier::ext_equal]
pub struct LedgerView {
    pub asset_types: Seq<AssetTypeModel>,
    pub action_types: Seq<ActionTypeModel>,
    pub accounts: Seq<AccountModel>,
    pub logs: Seq<AccountLogModel>,
    pub next_account_id: int,
    pub next_log_id: int,
}

impl View for AccountService {
    type V = LedgerView;

    open spec fn view(&self) -> LedgerView {
        LedgerView {
            asset_types: self.asset_types@,
            action_types: self.action_types@,
            accounts: self.accounts@,
            logs: self.account_logs@,
            next_account_id: self.next_account_id as int,
            next_log_id: self.next_log_id as int,
        }
    }
}

/// The sum of the available-balance deltas of all log records for one account.
pub open spec fn sum_available(logs: Seq<AccountLogModel>, account_id: i32) -> int
    decreases logs.len(),
{
    if logs.len() == 0 {
        0
    } else {
        sum_available(logs.drop_last(), account_id) + if logs.last().account_id == account_id {
            logs.last().amount_available_balance as int
        } else {
            0
        }
    }
}

/// The sum of the frozen-balance deltas of all log records for one account.
pub open spec fn sum_frozen(logs: Seq<AccountLogModel>, account_id: i32) -> int
    decreases logs.len(),
{
    if logs.len() == 0 {
        0
    } else {
        sum_frozen(logs.drop_last(), account_id) + if logs.last().account_id == account_id {
            logs.last().amount_frozen_balance as int
        } else {
            0
        }
    }
}

/// The sum of the total-income deltas of all log records for one account.
pub open spec fn sum_income(logs: Seq<AccountLogModel>, account_id: i32) -> int
    decreases logs.len(),
{
    if logs.len() == 0 {
        0
    } else {
        sum_income(logs.drop_last(), account_id) + if logs.last().account_id == account_id {
            logs.last().amount_total_income as int
        } else {
            0
        }
    }
}

/// The sum of the total-expense deltas of all log records for one account.
pub open spec fn sum_expense(logs: Seq<AccountLogModel>, account_id: i32) -> int
    decreases logs.len(),
{
    if logs.len() == 0 {
        0
    } else {
        sum_expense(logs.drop_last(), account_id) + if logs.last().account_id == account_id {
            logs.last().amount_total_expense as int
        } else {
            0
        }
    }
}

/// Appending one record adds its deltas to the sums of its account and
/// leaves every other account's sums unchanged.
pub proof fn lemma_sum_push(logs: Seq<AccountLogModel>, l: AccountLogModel, account_id: i32)
    ensures
        sum_available(logs.push(l), account_id) == sum_available(logs, account_id) + if l.account_id
            == account_id {
            l.amount_available_balance as int
        } else {
            0
        },
        sum_frozen(logs.push(l), account_id) == sum_frozen(logs, account_id) + if l.account_id
            == account_id {
            l.amount_frozen_balance as int
        } else {
            0
        },
        sum_income(logs.push(l), account_id) == sum_income(logs, account_id) + if l.account_id
            == account_id {
            l.amount_total_income as int
        } else {
            0
        },
        sum_expense(logs.push(l), account_id) == sum_expense(logs, account_id) + if l.account_id
            == account_id {
            l.amount_total_expense as int
        } else {
            0
        },
{
    assert(logs.push(l).drop_last() =~= logs);
    assert(logs.push(l).last() == l);
}

/// An account id that no record carries has all four sums at zero.
pub proof fn lemma_sum_absent(logs: Seq<AccountLogModel>, account_id: i32)
    requires
        forall|i: int| 0 <= i < logs.len() ==> logs[i].account_id != account_id,
    ensures
        sum_available(logs, account_id) == 0,
        sum_frozen(logs, account_id) == 0,
        sum_income(logs, account_id) == 0,
        sum_expense(logs, account_id) == 0,
    decreases logs.len(),
{
    if logs.len() > 0 {
        lemma_sum_absent(logs.drop_last(), account_id);
    }
}

/// The ledger's cross-cutting invariant. It holds of the state between
/// engine operations:
/// - (user_id, asset_type_id) keys identify at most one account;
/// - account ids are unique and below the id sequence;
/// - log ids are below the log id sequence, and log account ids are below
///   the account id sequence;
/// - idempotency triples (account, action type, order number) are unique
///   over the whole log;
/// - available and frozen balances are never negative;
/// - conservation: every account's four balances equal the sums of the
///   corresponding deltas of its log records.
pub open spec fn inv(v: LedgerView) -> bool {
    &&& forall|i: int, j: int|
        0 <= i < j < v.accounts.len() ==> !(v.accounts[i].user_id == v.accounts[j].user_id
            && v.accounts[i].asset_type_id == v.accounts[j].asset_type_id)
    &&& forall|i: int, j: int|
        0 <= i < j < v.accounts.len() ==> v.accounts[i].id != v.accounts[j].id
    &&& forall|i: int|
        0 <= i < v.accounts.len() ==> 1 <= #[trigger] v.accounts[i].id < v.next_account_id
    &&& 1 <= v.next_account_id <= i32::MAX
    &&& 1 <= v.next_log_id <= i64::MAX
    &&& forall|i: int| 0 <= i < v.logs.len() ==> 1 <= #[trigger] v.logs[i].id < v.next_log_id
    &&& forall|i: int|
        0 <= i < v.logs.len() ==> 1 <= #[trigger] v.logs[i].account_id < v.next_account_id
    &&& forall|i: int, j: int|
        0 <= i < j < v.logs.len() ==> !(v.logs[i].account_id == v.logs[j].account_id
            && v.logs[i].action_type_id == v.logs[j].action_type_id && v.logs[i].order_number@
            == v.logs[j].order_number@)
    &&& forall|i: int|
        0 <= i < v.accounts.len() ==> #[trigger] v.accounts[i].available_balance >= 0
            && v.accounts[i].frozen_balance >= 0
    &&& forall|i: int|
        0 <= i < v.accounts.len() ==> #[trigger] v.accounts[i].available_balance as int
            == sum_available(v.logs, v.accounts[i].id) && v.accounts[i].frozen_balance as int
            == sum_frozen(v.logs, v.accounts[i].id) && v.accounts[i].total_income as int
            == sum_income(v.logs, v.accounts[i].id) && v.accounts[i].total_expense as int
            == sum_expense(v.logs, v.accounts[i].id)
}

/// What account creation returns and how it changes the state.
pub open spec fn spec_create(v: LedgerView, req: AccountRequest) -> (Result<AccountModel, Error>,
    LedgerView,
) {
    if !spec_account_request_valid(v.asset_types, req) {
        (Err(Error::Validation), v)
    } else if spec_find(v.accounts, req.user_id, req.asset_type_id) is Some {
        (Err(Error::Conflict), v)
    } else if v.next_account_id == i32::MAX {
        (Err(Error::Internal), v)
    } else {
        let account = AccountModel {
            id: v.next_account_id as i32,
            user_id: req.user_id,
            asset_type_id: req.asset_type_id,
            available_balance: 0,
            frozen_balance: 0,
            total_income: 0,
            total_expense: 0,
            is_active: true,
        };
        (
            Ok(account),
            LedgerView {
                accounts: v.accounts.push(account),
                next_account_id: v.next_account_id + 1,
                ..v
            },
        )
    }
}

/// What an account lookup returns.
pub open spec fn spec_info(v: LedgerView, req: AccountRequest) -> Result<AccountModel, Error> {
    if !spec_account_request_valid(v.asset_types, req) {
        Err(Error::Validation)
    } else {
        match spec_find(v.accounts, req.user_id, req.asset_type_id) {
            Some(account) => Ok(account),
            None => Err(Error::NotFound),
        }
    }
}

/// The magnitude of an amount.
pub open spec fn spec_magnitude(amount: int) -> int {
    if amount < 0 {
        -amount
    } else {
        amount
    }
}

/// The validation pass over a batch, from request `i` on: the first
/// malformed request rejects the whole batch before any store access.
pub open spec fn spec_validate_from(
    v: LedgerView,
    reqs: Seq<AccountActionRequest>,
    i: int,
) -> Result<(), Error>
    decreases reqs.len() - i,
{
    if i < 0 || i >= reqs.len() {
        Ok(())
    } else if !spec_action_request_valid(v.asset_types, reqs[i]) {
        Err(Error::Validation)
    } else {
        spec_validate_from(v, reqs, i + 1)
    }
}

/// The fast-fail check of one request against the committed state: resolve
/// the action type, fetch the account, require it active, require the
/// idempotency triple to be new, and require the decremented balances to
/// cover the amount. The idempotency probe comes before the balance check,
/// so a replayed order number always reports `Conflict`, whatever the
/// balance has become since. Advisory only — the authoritative checks run
/// again inside the transaction.
pub open spec fn spec_precheck_one(v: LedgerView, req: AccountActionRequest) -> Result<(), Error> {
    match spec_action_type(v.action_types, req.action_type_id) {
        None => Err(Error::NotFound),
        Some(at) => match spec_find(v.accounts, req.user_id, req.asset_type_id) {
            None => Err(Error::NotFound),
            Some(account) => {
                if !account.is_active {
                    Err(Error::Forbidden)
                } else if spec_log_exists(v.logs, account.id, at.id, req.order_number@) {
                    Err(Error::Conflict)
                } else if (at.available_balance_change == Change::Dec
                    && (account.available_balance as int) < spec_magnitude(req.amount as int)) || (
                at.frozen_balance_change == Change::Dec && (account.frozen_balance as int)
                    < spec_magnitude(req.amount as int)) {
                    Err(Error::InsufficientBalance)
                } else {
                    Ok(())
                }
            },
        },
    }
}

/// The fast-fail pass over a batch, from request `i` on.
pub open spec fn spec_precheck_from(
    v: LedgerView,
    reqs: Seq<AccountActionRequest>,
    i: int,
) -> Result<(), Error>
    decreases reqs.len() - i,
{
    if i < 0 || i >= reqs.len() {
        Ok(())
    } else {
        match spec_precheck_one(v, reqs[i]) {
            Err(e) => Err(e),
            Ok(()) => spec_precheck_from(v, reqs, i + 1),
        }
    }
}

/// One request applied inside the transaction: re-check the account is
/// active, resolve the action type, add the four signed deltas, reject a
/// decrement whose resulting balance is negative (the authoritative check),
/// and append the log record under a fresh id, rejecting a duplicate
/// idempotency triple.
pub open spec fn spec_apply_one(v: LedgerView, req: AccountActionRequest) -> Result<
    LedgerView,
    Error,
> {
    let active = match spec_find(v.accounts, req.user_id, req.asset_type_id) {
        Some(a) => a.is_active,
        None => false,
    };
    if !active {
        Err(Error::Forbidden)
    } else {
        match spec_action_type(v.action_types, req.action_type_id) {
            None => Err(Error::NotFound),
            Some(at) => {
                let d_available = spec_change(at.available_balance_change, req.amount as int);
                let d_frozen = spec_change(at.frozen_balance_change, req.amount as int);
                let d_income = spec_change(at.total_income_change, req.amount as int);
                let d_expense = spec_change(at.total_expense_change, req.amount as int);
                match spec_update_balance(
                    v.accounts,
                    req.user_id,
                    req.asset_type_id,
                    d_available,
                    d_frozen,
                    d_income,
                    d_expense,
                ) {
                    Err(e) => Err(e),
                    Ok((accounts2, updated)) => {
                        if (at.available_balance_change == Change::Dec && updated.available_balance
                            < 0) || (at.frozen_balance_change == Change::Dec
                            && updated.frozen_balance < 0) {
                            Err(Error::InsufficientBalance)
                        } else if v.next_log_id == i64::MAX {
                            Err(Error::Internal)
                        } else if spec_log_exists(v.logs, updated.id, at.id, req.order_number@) {
                            Err(Error::Conflict)
                        } else {
                            let record = AccountLogModel {
                                id: v.next_log_id as i64,
                                account_id: updated.id,
                                action_type_id: at.id,
                                amount_available_balance: d_available as i64,
                                amount_frozen_balance: d_frozen as i64,
                                amount_total_income: d_income as i64,
                                amount_total_expense: d_expense as i64,
                                available_balance_after: updated.available_balance,
                                frozen_balance_after: updated.frozen_balance,
                                total_income_after: updated.total_income,
                                total_expense_after: updated.total_expense,
                                order_number: req.order_number,
                                description: req.description,
                            };
                            Ok(
                                LedgerView {
                                    accounts: accounts2,
                                    logs: v.logs.push(record),
                                    next_log_id: v.next_log_id + 1,
                                    ..v
                                },
                            )
                        }
                    },
                }
            },
        }
    }
}

/// The transactional pass over a batch, from request `i` on: requests are
/// applied in order to the evolving transaction state; the first failure
/// aborts the whole batch.
pub open spec fn spec_apply_from(
    v: LedgerView,
    reqs: Seq<AccountActionRequest>,
    i: int,
) -> Result<LedgerView, Error>
    decreases reqs.len() - i,
{
    if i < 0 || i >= reqs.len() {
        Ok(v)
    } else {
        match spec_apply_one(v, reqs[i]) {
            Err(e) => Err(e),
            Ok(v2) => spec_apply_from(v2, reqs, i + 1),
        }
    }
}

/// What a whole batch returns and how it changes the state: validation,
/// then the fast-fail pass, then the all-or-nothing transactional pass.
/// On any error the state is unchanged.
pub open spec fn spec_actions(v: LedgerView, reqs: Seq<AccountActionRequest>) -> (Result<
    (),
    Error,
>, LedgerView) {
    match spec_validate_from(v, reqs, 0) {
        Err(e) => (Err(e), v),
        Ok(()) => match spec_precheck_from(v, reqs, 0) {
            Err(e) => (Err(e), v),
            Ok(()) => match spec_apply_from(v, reqs, 0) {
                Err(e) => (Err(e), v),
                Ok(v2) => (Ok(()), v2),
            },
        },
    }
}

/// The conservation clause of the invariant, instantiated at one account.
proof fn lemma_inv_conservation(v: LedgerView, k: int)
    requires
        inv(v),
        0 <= k < v.accounts.len(),
    ensures
        v.accounts[k].available_balance as int == sum_available(v.logs, v.accounts[k].id),
        v.accounts[k].frozen_balance as int == sum_frozen(v.logs, v.accounts[k].id),
        v.accounts[k].total_income as int == sum_income(v.logs, v.accounts[k].id),
        v.accounts[k].total_expense as int == sum_expense(v.logs, v.accounts[k].id),
{
}

/// A batch that passed validation is made of well-formed requests only.
pub proof fn lemma_validate_ok(v: LedgerView, reqs: Seq<AccountActionRequest>, i: int)
    requires
        0 <= i <= reqs.len(),
        spec_validate_from(v, reqs, i) is Ok,
    ensures
        forall|j: int|
            i <= j < reqs.len() ==> spec_action_request_valid(v.asset_types, reqs[j]),
    decreases reqs.len() - i,
{
    if i < reqs.len() {
        lemma_validate_ok(v, reqs, i + 1);
    }
}

/// Applying one well-formed request inside the transaction preserves the
/// ledger invariant; the catalogs and the account id sequence are untouched.
pub proof fn lemma_apply_one_preserves_inv(v: LedgerView, req: AccountActionRequest)
    requires
        inv(v),
        req.amount >= 1,
        spec_apply_one(v, req) is Ok,
    ensures
        inv(spec_apply_one(v, req)->Ok_0),
        (spec_apply_one(v, req)->Ok_0).asset_types == v.asset_types,
        (spec_apply_one(v, req)->Ok_0).action_types == v.action_types,
        (spec_apply_one(v, req)->Ok_0).next_account_id == v.next_account_id,
{
    let at = spec_action_type(v.action_types, req.action_type_id)->0;
    lemma_find_index_from_props(v.accounts, req.user_id, req.asset_type_id, 0);
    let i = spec_find_index(v.accounts, req.user_id, req.asset_type_id)->0;
    let a = v.accounts[i];
    let d_available = spec_change(at.available_balance_change, req.amount as int);
    let d_frozen = spec_change(at.frozen_balance_change, req.amount as int);
    let d_income = spec_change(at.total_income_change, req.amount as int);
    let d_expense = spec_change(at.total_expense_change, req.amount as int);
    let updated = spec_with_deltas(a, d_available, d_frozen, d_income, d_expense);
    let v2 = spec_apply_one(v, req)->Ok_0;
    let record = v2.logs.last();
    assert(v2.accounts == v.accounts.update(i, updated));
    assert(record.account_id == updated.id && record.amount_available_balance as int == d_available
        && record.amount_frozen_balance as int == d_frozen && record.amount_total_income as int
        == d_income && record.amount_total_expense as int == d_expense);
    assert forall|k: int| 0 <= k < v2.accounts.len() implies
        #[trigger] v2.accounts[k].available_balance as int == sum_available(
        v2.logs,
        v2.accounts[k].id,
    ) && v2.accounts[k].frozen_balance as int == sum_frozen(v2.logs, v2.accounts[k].id)
        && v2.accounts[k].total_income as int == sum_income(v2.logs, v2.accounts[k].id)
        && v2.accounts[k].total_expense as int == sum_expense(v2.logs, v2.accounts[k].id) by {
        lemma_sum_push(v.logs, record, v2.accounts[k].id);
        lemma_inv_conservation(v, k);
        if k != i {
            assert(v2.accounts[k] == v.accounts[k]);
            assert(v.accounts[k].id != a.id);
        } else {
            assert(spec_deltas_fit(a, d_available, d_frozen, d_income, d_expense));
        }
    }
    assert forall|k: int| 0 <= k < v2.accounts.len() implies
        #[trigger] v2.accounts[k].available_balance >= 0 && v2.accounts[k].frozen_balance
        >= 0 by {
        if k == i {
            assert(v2.accounts[k] == updated);
            assert(spec_deltas_fit(a, d_available, d_frozen, d_income, d_expense));
            assert(updated.available_balance as int == a.available_balance + d_available);
            assert(updated.frozen_balance as int == a.frozen_balance + d_frozen);
            assert(a.available_balance >= 0 && a.frozen_balance >= 0);
            if at.available_balance_change == Change::Dec {
                assert(updated.available_balance >= 0);
            } else {
                assert(d_available >= 0);
            }
            if at.frozen_balance_change == Change::Dec {
                assert(updated.frozen_balance >= 0);
            } else {
                assert(d_frozen >= 0);
            }
        } else {
            assert(v2.accounts[k] == v.accounts[k]);
            assert(v.accounts[k].available_balance >= 0 && v.accounts[k].frozen_balance >= 0);
        }
    }
    assert forall|p: int, q: int| 0 <= p < q < v2.logs.len() implies !(v2.logs[p].account_id
        == v2.logs[q].account_id && v2.logs[p].action_type_id == v2.logs[q].action_type_id
        && v2.logs[p].order_number@ == v2.logs[q].order_number@) by {
        if q == v2.logs.len() - 1 {
            assert(!triple_matches(v.logs[p], updated.id, at.id, req.order_number@));
            assert(v2.logs[p] == v.logs[p]);
        } else {
            assert(v2.logs[p] == v.logs[p] && v2.logs[q] == v.logs[q]);
        }
    }
}

/// Applying a batch of well-formed requests inside the transaction
/// preserves the ledger invariant.
pub proof fn lemma_apply_from_preserves_inv(
    v: LedgerView,
    reqs: Seq<AccountActionRequest>,
    i: int,
)
    requires
        inv(v),
        0 <= i <= reqs.len(),
        forall|j: int| i <= j < reqs.len() ==> #[trigger] reqs[j].amount >= 1,
        spec_apply_from(v, reqs, i) is Ok,
    ensures
        inv(spec_apply_from(v, reqs, i)->Ok_0),
        (spec_apply_from(v, reqs, i)->Ok_0).asset_types == v.asset_types,
        (spec_apply_from(v, reqs, i)->Ok_0).action_types == v.action_types,
        (spec_apply_from(v, reqs, i)->Ok_0).next_account_id == v.next_account_id,
    decreases reqs.len() - i,
{
    if i < reqs.len() {
        lemma_apply_one_preserves_inv(v, reqs[i]);
        lemma_apply_from_preserves_inv(spec_apply_one(v, reqs[i])->Ok_0, reqs, i + 1);
    }
}

/// The unit of work of one batch: a scratch copy of the account rows, the
/// log records this transaction would append, and where the log id sequence
/// would stand. Committing installs all of it at once; dropping it on a
/// failure leaves the ledger untouched.
pub struct Tx {
    pub accounts: Vec<AccountModel>,
    pub new_logs: Vec<AccountLogModel>,
    pub next_log_id: i64,
}

/// The ledger state a transaction stands for, over the committed state `v`.
pub open spec fn tx_view(v: LedgerView, tx: Tx) -> LedgerView {
    LedgerView {
        accounts: tx.accounts@,
        logs: v.logs + tx.new_logs@,
        next_log_id: tx.next_log_id as int,
        ..v
    }
}

impl AccountService {
    /// A fresh engine over the given catalogs, with no accounts and no log.
    pub fn new(asset_types: Vec<AssetTypeModel>, action_types: Vec<ActionTypeModel>) -> (s:
        AccountService)
        ensures
            s@.asset_types == asset_types@,
            s@.action_types == action_types@,
            s@.accounts == Seq::<AccountModel>::empty(),
            s@.logs == Seq::<AccountLogModel>::empty(),
            inv(s@),
    {
        let s = AccountService {
            asset_types,
            action_types,
            accounts: Vec::new(),
            account_logs: Vec::new(),
            next_account_id: 1,
            next_log_id: 1,
        };
        assert(s.accounts@ =~= Seq::<AccountModel>::empty());
        assert(s.account_logs@ =~= Seq::<AccountLogModel>::empty());
        s
    }

    /// Create the account for (user_id, asset_type_id) with all balances at
    /// zero. `Validation` for a malformed request, `Conflict` when the
    /// account already exists.
    pub fn create(&mut self, account_request: &AccountRequest) -> (r: Result<AccountModel, Error>)
        requires
            inv(old(self)@),
        ensures
            inv(final(self)@),
            r == spec_create(old(self)@, *account_request).0,
            final(self)@ == spec_create(old(self)@, *account_request).1,
            r is Err ==> final(self)@ == old(self)@,
    {
        match account_request.validate(&self.asset_types) {
            Err(e) => {
                return Err(e);
            },
            Ok(()) => {},
        }
        proof {
            lemma_find_index_from_props(
                self.accounts@,
                account_request.user_id,
                account_request.asset_type_id,
                0,
            );
        }
        if AccountModel::is_exists(
            &self.accounts,
            account_request.user_id,
            account_request.asset_type_id,
        ) {
            return Err(Error::Conflict);
        }
        if self.next_account_id == i32::MAX {
            return Err(Error::Internal);
        }
        let id = self.next_account_id;
        self.next_account_id = self.next_account_id + 1;
        let account = AccountModel::create(
            &mut self.accounts,
            id,
            account_request.user_id,
            account_request.asset_type_id,
        );
        proof {
            let v = old(self)@;
            let w = self@;
            assert forall|i: int| 0 <= i < w.accounts.len() implies
                #[trigger] w.accounts[i].available_balance as int == sum_available(
                w.logs,
                w.accounts[i].id,
            ) && w.accounts[i].frozen_balance as int == sum_frozen(w.logs, w.accounts[i].id)
                && w.accounts[i].total_income as int == sum_income(w.logs, w.accounts[i].id)
                && w.accounts[i].total_expense as int == sum_expense(
                w.logs,
                w.accounts[i].id,
            ) by {
                if i == w.accounts.len() - 1 {
                    lemma_sum_absent(w.logs, account.id);
                } else {
                    assert(w.accounts[i] == v.accounts[i]);
                }
            }
        }
        Ok(account)
    }

    /// Look the account for (user_id, asset_type_id) up. `Validation` for a
    /// malformed request, `NotFound` when there is no such account.
    pub fn info(&self, account_request: &AccountRequest) -> (r: Result<AccountModel, Error>)
        ensures
            r == spec_info(self@, *account_request),
    {
        match account_request.validate(&self.asset_types) {
            Err(e) => {
                return Err(e);
            },
            Ok(()) => {},
        }
        match AccountModel::find(
            &self.accounts,
            account_request.user_id,
            account_request.asset_type_id,
        ) {
            Some(account) => Ok(account),
            None => Err(Error::NotFound),
        }
    }

    /// `Forbidden` unless the account exists and is active.
    pub fn check_account_is_active(
        accounts: &Vec<AccountModel>,
        user_id: i32,
        asset_type_id: i32,
    ) -> (r: Result<(), Error>)
        ensures
            r == ({
                let active = match spec_find(accounts@, user_id, asset_type_id) {
                    Some(a) => a.is_active,
                    None => false,
                };
                if active {
                    Ok::<(), Error>(())
                } else {
                    Err::<(), Error>(Error::Forbidden)
                }
            }),
    {
        if !AccountModel::is_active(accounts, user_id, asset_type_id) {
            return Err(Error::Forbidden);
        }
        Ok(())
    }

    /// `InsufficientBalance` when the action type decrements the available
    /// or the frozen balance and the current value of that field does not
    /// cover the amount's magnitude.
    pub fn check_balance_before_update(
        action_type: &ActionTypeModel,
        account: &AccountModel,
        amount: i64,
    ) -> (r: Result<(), Error>)
        requires
            amount != i64::MIN,
        ensures
            r == if (action_type.available_balance_change == Change::Dec
                && (account.available_balance as int) < spec_magnitude(amount as int)) || (
            action_type.frozen_balance_change == Change::Dec && (account.frozen_balance as int)
                < spec_magnitude(amount as int)) {
                Err::<(), Error>(Error::InsufficientBalance)
            } else {
                Ok::<(), Error>(())
            },
    {
        let magnitude: i64 = if amount < 0 {
            -amount
        } else {
            amount
        };
        if (matches!(action_type.available_balance_change, Change::Dec)
            && account.available_balance < magnitude) || (matches!(
            action_type.frozen_balance_change,
            Change::Dec,
        ) && account.frozen_balance < magnitude) {
            return Err(Error::InsufficientBalance);
        }
        Ok(())
    }

    /// The authoritative check after the deltas were applied:
    /// `InsufficientBalance` when the action type decrements the available
    /// or the frozen balance and the resulting value is negative. A
    /// decrement is always checked; an increment may legally drive a field
    /// negative, as an out-of-band correction can.
    pub fn check_balance_after_update(action_type: &ActionTypeModel, account: &AccountModel) -> (r:
        Result<(), Error>)
        ensures
            r == if (action_type.available_balance_change == Change::Dec
                && account.available_balance < 0) || (action_type.frozen_balance_change
                == Change::Dec && account.frozen_balance < 0) {
                Err::<(), Error>(Error::InsufficientBalance)
            } else {
                Ok::<(), Error>(())
            },
    {
        if (matches!(action_type.available_balance_change, Change::Dec)
            && account.available_balance < 0) || (matches!(
            action_type.frozen_balance_change,
            Change::Dec,
        ) && account.frozen_balance < 0) {
            return Err(Error::InsufficientBalance);
        }
        Ok(())
    }

    /// `Conflict` when the idempotency triple was already logged.
    pub fn check_account_log_exists(
        logs: &Vec<AccountLogModel>,
        account_id: i32,
        action_type_id: i32,
        order_number: &String,
    ) -> (r: Result<(), Error>)
        ensures
            r == if spec_log_exists(logs@, account_id, action_type_id, order_number@) {
                Err::<(), Error>(Error::Conflict)
            } else {
                Ok::<(), Error>(())
            },
    {
        if AccountLogModel::is_exists(logs, account_id, action_type_id, order_number) {
            return Err(Error::Conflict);
        }
        Ok(())
    }

    /// A row-for-row copy of the account rows, for a transaction's scratch
    /// state.
    fn copy_accounts(accounts: &Vec<AccountModel>) -> (r: Vec<AccountModel>)
        ensures
            r@ == accounts@,
    {
        let mut r: Vec<AccountModel> = Vec::new();
        let mut i: usize = 0;
        while i < accounts.len()
            invariant
                0 <= i <= accounts.len(),
                r@ == accounts@.subrange(0, i as int),
            decreases accounts.len() - i,
        {
            r.push(accounts[i]);
            proof {
                assert(accounts@.subrange(0, i + 1 as int) =~= accounts@.subrange(
                    0,
                    i as int,
                ).push(accounts@[i as int]));
            }
            i = i + 1;
        }
        proof {
            assert(accounts@.subrange(0, accounts@.len() as int) =~= accounts@);
        }
        r
    }

    /// Apply one request inside the transaction: the re-checks, the atomic
    /// delta update, the authoritative balance check, and the log append.
    fn update_balance(
        action_types: &Vec<ActionTypeModel>,
        account_logs: &Vec<AccountLogModel>,
        tx: &mut Tx,
        account_action_request: &AccountActionRequest,
        Ghost(base): Ghost<LedgerView>,
    ) -> (r: Result<(), Error>)
        requires
            base.action_types == action_types@,
            base.logs == account_logs@,
            account_action_request.amount >= 1,
        ensures
            match r {
                Ok(()) => spec_apply_one(tx_view(base, *old(tx)), *account_action_request)
                    == Ok::<LedgerView, Error>(tx_view(base, *final(tx))),
                Err(e) => spec_apply_one(tx_view(base, *old(tx)), *account_action_request)
                    == Err::<LedgerView, Error>(e),
            },
    {
        let req = account_action_request;
        match Self::check_account_is_active(&tx.accounts, req.user_id, req.asset_type_id) {
            Err(e) => {
                return Err(e);
            },
            Ok(()) => {},
        }
        let action_type = match ActionTypeModel::by_id(action_types, req.action_type_id) {
            Some(at) => at,
            None => {
                return Err(Error::NotFound);
            },
        };
        let amount_available_balance = action_type.available_balance_change.calculate_change(
            req.amount,
        );
        let amount_frozen_balance = action_type.frozen_balance_change.calculate_change(req.amount);
        let amount_total_income = action_type.total_income_change.calculate_change(req.amount);
        let amount_total_expense = action_type.total_expense_change.calculate_change(req.amount);
        let account = match AccountModel::update_balance(
            &mut tx.accounts,
            req.user_id,
            req.asset_type_id,
            amount_available_balance,
            amount_frozen_balance,
            amount_total_income,
            amount_total_expense,
        ) {
            Ok(a) => a,
            Err(e) => {
                return Err(e);
            },
        };
        match Self::check_balance_after_update(action_type, &account) {
            Err(e) => {
                return Err(e);
            },
            Ok(()) => {},
        }
        if tx.next_log_id == i64::MAX {
            return Err(Error::Internal);
        }
        let id = tx.next_log_id;
        match AccountLogModel::create(
            account_logs,
            &mut tx.new_logs,
            id,
            account.id,
            action_type.id,
            amount_available_balance,
            amount_frozen_balance,
            amount_total_income,
            amount_total_expense,
            account.available_balance,
            account.frozen_balance,
            account.total_income,
            account.total_expense,
            req.order_number.clone(),
            req.description.clone(),
        ) {
            Err(e) => {
                return Err(e);
            },
            Ok(()) => {},
        }
        tx.next_log_id = tx.next_log_id + 1;
        proof {
            let v0 = tx_view(base, *old(tx));
            let v1 = spec_apply_one(v0, *req)->Ok_0;
            assert(base.logs + old(tx).new_logs@.push(tx.new_logs@.last()) =~= (base.logs + old(
                tx,
            ).new_logs@).push(tx.new_logs@.last()));
            assert(tx_view(base, *tx) =~= v1);
        }
        Ok(())
    }

    /// Apply a batch of action requests as one all-or-nothing unit: reject
    /// a malformed batch, fast-fail against the committed state without
    /// opening a transaction, then apply every request in order inside one
    /// transaction and commit only if all of them succeed. On any error
    /// nothing of the batch is visible.
    #[verifier::loop_isolation(false)]
    pub fn actions(&mut self, account_action_requests: &Vec<AccountActionRequest>) -> (r: Result<
        (),
        Error,
    >)
        requires
            inv(old(self)@),
        ensures
            inv(final(self)@),
            r == spec_actions(old(self)@, account_action_requests@).0,
            final(self)@ == spec_actions(old(self)@, account_action_requests@).1,
            r is Err ==> final(self)@ == old(self)@,
    {
        let reqs = account_action_requests;
        let ghost v = self@;

        // Validation pass: reject the batch before any store access.
        let mut i: usize = 0;
        while i < reqs.len()
            invariant
                0 <= i <= reqs.len(),
                spec_validate_from(v, reqs@, 0) == spec_validate_from(v, reqs@, i as int),
            decreases reqs.len() - i,
        {
            match reqs[i].validate(&self.asset_types) {
                Err(e) => {
                    return Err(e);
                },
                Ok(()) => {},
            }
            i = i + 1;
        }
        proof {
            lemma_validate_ok(v, reqs@, 0);
        }

        // Fast-fail pass over the committed state, holding no locks: reject
        // cheaply before paying for a transaction. Advisory only.
        let mut i: usize = 0;
        while i < reqs.len()
            invariant
                0 <= i <= reqs.len(),
                spec_precheck_from(v, reqs@, 0) == spec_precheck_from(v, reqs@, i as int),
            decreases reqs.len() - i,
        {
            let req = &reqs[i];
            let action_type = match ActionTypeModel::by_id(&self.action_types, req.action_type_id) {
                Some(at) => at,
                None => {
                    return Err(Error::NotFound);
                },
            };
            let account = match AccountModel::find(&self.accounts, req.user_id, req.asset_type_id) {
                Some(a) => a,
                None => {
                    return Err(Error::NotFound);
                },
            };
            if !account.is_active {
                return Err(Error::Forbidden);
            }
            match Self::check_account_log_exists(
                &self.account_logs,
                account.id,
                action_type.id,
                &req.order_number,
            ) {
                Err(e) => {
                    return Err(e);
                },
                Ok(()) => {},
            }
            match Self::check_balance_before_update(action_type, &account, req.amount) {
                Err(e) => {
                    return Err(e);
                },
                Ok(()) => {},
            }
            i = i + 1;
        }

        // Transactional pass: one unit of work over the whole batch.
        let mut tx = Tx {
            accounts: Self::copy_accounts(&self.accounts),
            new_logs: Vec::new(),
            next_log_id: self.next_log_id,
        };
        proof {
            assert(v.logs + tx.new_logs@ =~= v.logs);
            assert(tx_view(v, tx) =~= v);
        }
        let mut i: usize = 0;
        while i < reqs.len()
            invariant
                0 <= i <= reqs.len(),
                spec_apply_from(v, reqs@, 0) == spec_apply_from(tx_view(v, tx), reqs@, i as int),
            decreases reqs.len() - i,
        {
            match Self::update_balance(
                &self.action_types,
                &self.account_logs,
                &mut tx,
                &reqs[i],
                Ghost(v),
            ) {
                Err(e) => {
                    return Err(e);
                },
                Ok(()) => {},
            }
            i = i + 1;
        }

        // Commit: install the transaction's state as the ledger's.
        let ghost txg = tx;
        proof {
            lemma_apply_from_preserves_inv(v, reqs@, 0);
        }
        self.accounts = tx.accounts;
        self.account_logs.append(&mut tx.new_logs);
        self.next_log_id = tx.next_log_id;
        proof {
            assert(self@ =~= tx_view(v, txg));
        }
        Ok(())
    }
}

} // verus!
