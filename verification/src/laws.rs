//! The laws the ledger engine obeys, stated over the mathematical state
//! and proved from the engine's contracts: conservation, idempotency, the
//! decrement floor, batch atomicity, and safety under concurrent
//! decrements serialized by the store.

use vstd::prelude::*;
use crate::account::{lemma_find_index_from_props, lemma_find_index_update, spec_deltas_fit,
    spec_find, spec_find_index, spec_with_deltas};
use crate::account_log::spec_log_exists;
use crate::action_type::{ActionTypeModel, Change, spec_action_type, spec_change};
use crate::error::Error;
use crate::request::{AccountActionRequest, spec_action_request_valid};
use crate::service::{inv, lemma_apply_from_preserves_inv, lemma_apply_one_preserves_inv,
    lemma_validate_ok, spec_actions,
    spec_apply_one, spec_apply_from, spec_magnitude,
    spec_precheck_from, spec_precheck_one, spec_validate_from, sum_available, sum_expense,
    sum_frozen, sum_income, LedgerView};

verus! {

/// Conservation: in every state the engine can reach (every state
/// satisfying the ledger invariant, which `new` establishes and every
/// operation preserves), each account's four balances equal the sums of
/// the corresponding signed deltas of its committed log records.
pub proof fn lemma_conservation(v: LedgerView, i: int)
    requires
        inv(v),
        0 <= i < v.accounts.len(),
    ensures
        v.accounts[i].available_balance as int == sum_available(v.logs, v.accounts[i].id),
        v.accounts[i].frozen_balance as int == sum_frozen(v.logs, v.accounts[i].id),
        v.accounts[i].total_income as int == sum_income(v.logs, v.accounts[i].id),
        v.accounts[i].total_expense as int == sum_expense(v.logs, v.accounts[i].id),
{
}

/// The four signed deltas a batch asks for against one account key, from
/// request `i` on: for each request addressed to that key, the catalog's
/// change per balance field applied to the request's amount, summed in
/// batch order. A request whose action type does not resolve contributes
/// nothing (such a batch never commits).
pub open spec fn batch_deltas(
    action_types: Seq<ActionTypeModel>,
    reqs: Seq<AccountActionRequest>,
    i: int,
    user_id: i32,
    asset_type_id: i32,
) -> (int, int, int, int)
    decreases reqs.len() - i,
{
    if i < 0 || i >= reqs.len() {
        (0, 0, 0, 0)
    } else {
        let rest = batch_deltas(action_types, reqs, i + 1, user_id, asset_type_id);
        if reqs[i].user_id == user_id && reqs[i].asset_type_id == asset_type_id {
            match spec_action_type(action_types, reqs[i].action_type_id) {
                Some(at) => (
                    spec_change(at.available_balance_change, reqs[i].amount as int) + rest.0,
                    spec_change(at.frozen_balance_change, reqs[i].amount as int) + rest.1,
                    spec_change(at.total_income_change, reqs[i].amount as int) + rest.2,
                    spec_change(at.total_expense_change, reqs[i].amount as int) + rest.3,
                ),
                None => rest,
            }
        } else {
            rest
        }
    }
}

/// The transactional fold moves each account by exactly its batch deltas,
/// and touches nothing else of the row.
proof fn lemma_apply_from_balances(v: LedgerView, reqs: Seq<AccountActionRequest>, i: int)
    requires
        inv(v),
        0 <= i <= reqs.len(),
        forall|j: int| i <= j < reqs.len() ==> #[trigger] reqs[j].amount >= 1,
        spec_apply_from(v, reqs, i) is Ok,
    ensures
        ({
            let w = spec_apply_from(v, reqs, i)->Ok_0;
            &&& w.accounts.len() == v.accounts.len()
            &&& forall|k: int|
                0 <= k < v.accounts.len() ==> {
                    let a = v.accounts[k];
                    let b = #[trigger] w.accounts[k];
                    let d = batch_deltas(v.action_types, reqs, i, a.user_id, a.asset_type_id);
                    &&& b.id == a.id
                    &&& b.user_id == a.user_id
                    &&& b.asset_type_id == a.asset_type_id
                    &&& b.is_active == a.is_active
                    &&& b.available_balance as int == a.available_balance + d.0
                    &&& b.frozen_balance as int == a.frozen_balance + d.1
                    &&& b.total_income as int == a.total_income + d.2
                    &&& b.total_expense as int == a.total_expense + d.3
                }
        }),
    decreases reqs.len() - i,
{
    if i < reqs.len() {
        let req = reqs[i];
        let v2 = spec_apply_one(v, req)->Ok_0;
        let w = spec_apply_from(v, reqs, i)->Ok_0;
        lemma_apply_one_preserves_inv(v, req);
        lemma_apply_from_balances(v2, reqs, i + 1);
        let at = spec_action_type(v.action_types, req.action_type_id)->0;
        lemma_find_index_from_props(v.accounts, req.user_id, req.asset_type_id, 0);
        let idx = spec_find_index(v.accounts, req.user_id, req.asset_type_id)->0;
        let a = v.accounts[idx];
        let d_available = spec_change(at.available_balance_change, req.amount as int);
        let d_frozen = spec_change(at.frozen_balance_change, req.amount as int);
        let d_income = spec_change(at.total_income_change, req.amount as int);
        let d_expense = spec_change(at.total_expense_change, req.amount as int);
        assert(spec_deltas_fit(a, d_available, d_frozen, d_income, d_expense));
        assert(v2.accounts == v.accounts.update(
            idx,
            spec_with_deltas(a, d_available, d_frozen, d_income, d_expense),
        ));
        assert forall|k: int| 0 <= k < v.accounts.len() implies {
            let a0 = v.accounts[k];
            let b = #[trigger] w.accounts[k];
            let d = batch_deltas(v.action_types, reqs, i, a0.user_id, a0.asset_type_id);
            &&& b.id == a0.id
            &&& b.user_id == a0.user_id
            &&& b.asset_type_id == a0.asset_type_id
            &&& b.is_active == a0.is_active
            &&& b.available_balance as int == a0.available_balance + d.0
            &&& b.frozen_balance as int == a0.frozen_balance + d.1
            &&& b.total_income as int == a0.total_income + d.2
            &&& b.total_expense as int == a0.total_expense + d.3
        } by {
            let a0 = v.accounts[k];
            let a1 = v2.accounts[k];
            assert(a1.user_id == a0.user_id && a1.asset_type_id == a0.asset_type_id);
            if k != idx {
                // Keys are unique, so this row is not the one the request
                // addressed, and the request contributes nothing to it.
                assert(a1 == a0);
                assert(!(req.user_id == a0.user_id && req.asset_type_id == a0.asset_type_id));
            }
        }
    }
}

/// Conservation, per-batch form: a committed batch moves every account's
/// four balances by exactly the sums of its requests' signed deltas for
/// that account — the catalog's change per field applied to each amount —
/// and changes nothing else of the row.
pub proof fn lemma_batch_conservation(v: LedgerView, reqs: Seq<AccountActionRequest>, k: int)
    requires
        inv(v),
        spec_actions(v, reqs).0 is Ok,
        0 <= k < v.accounts.len(),
    ensures
        ({
            let w = spec_actions(v, reqs).1;
            let a = v.accounts[k];
            let d = batch_deltas(v.action_types, reqs, 0, a.user_id, a.asset_type_id);
            &&& w.accounts.len() == v.accounts.len()
            &&& w.accounts[k].id == a.id
            &&& w.accounts[k].user_id == a.user_id
            &&& w.accounts[k].asset_type_id == a.asset_type_id
            &&& w.accounts[k].is_active == a.is_active
            &&& w.accounts[k].available_balance as int == a.available_balance + d.0
            &&& w.accounts[k].frozen_balance as int == a.frozen_balance + d.1
            &&& w.accounts[k].total_income as int == a.total_income + d.2
            &&& w.accounts[k].total_expense as int == a.total_expense + d.3
        }),
{
    lemma_validate_ok(v, reqs, 0);
    assert forall|j: int| 0 <= j < reqs.len() implies #[trigger] reqs[j].amount >= 1 by {
        assert(spec_action_request_valid(v.asset_types, reqs[j]));
    }
    lemma_apply_from_balances(v, reqs, 0);
}

/// Every batch — successful or not — carries the ledger invariant with
/// it, so conservation and the balance floor hold of every state the
/// engine can reach.
pub proof fn lemma_actions_preserve_inv(v: LedgerView, reqs: Seq<AccountActionRequest>)
    requires
        inv(v),
    ensures
        inv(spec_actions(v, reqs).1),
{
    if spec_validate_from(v, reqs, 0) is Ok && spec_precheck_from(v, reqs, 0) is Ok
        && spec_apply_from(v, reqs, 0) is Ok {
        lemma_validate_ok(v, reqs, 0);
        assert forall|j: int| 0 <= j < reqs.len() implies #[trigger] reqs[j].amount >= 1 by {
            assert(spec_action_request_valid(v.asset_types, reqs[j]));
        }
        lemma_apply_from_preserves_inv(v, reqs, 0);
    }
}

/// A batch that fails at some request — whatever the error — leaves the
/// ledger exactly as it was: none of the batch's balance changes or log
/// records are visible.
pub proof fn lemma_batch_atomicity(v: LedgerView, reqs: Seq<AccountActionRequest>)
    requires
        spec_actions(v, reqs).0 is Err,
    ensures
        spec_actions(v, reqs).1 == v,
{
}

/// A batch whose requests all fail from `k` on is rejected as a whole;
/// helper: one failing precheck fails the pass.
proof fn lemma_precheck_from_err(
    v: LedgerView,
    reqs: Seq<AccountActionRequest>,
    i: int,
    k: int,
)
    requires
        0 <= i <= k < reqs.len(),
        spec_precheck_one(v, reqs[k]) is Err,
    ensures
        spec_precheck_from(v, reqs, i) is Err,
    decreases k - i,
{
    if i < k {
        if spec_precheck_one(v, reqs[i]) is Ok {
            lemma_precheck_from_err(v, reqs, i + 1, k);
        }
    }
}

/// Idempotency, batch form: a batch holding a request whose idempotency
/// triple (account, action type, order number) was already logged always
/// fails, and leaves the ledger — all balances and the log — unchanged.
pub proof fn lemma_idempotency_batch(v: LedgerView, reqs: Seq<AccountActionRequest>, k: int)
    requires
        0 <= k < reqs.len(),
        spec_find(v.accounts, reqs[k].user_id, reqs[k].asset_type_id) is Some,
        spec_action_type(v.action_types, reqs[k].action_type_id) is Some,
        spec_log_exists(
            v.logs,
            spec_find(v.accounts, reqs[k].user_id, reqs[k].asset_type_id)->0.id,
            spec_action_type(v.action_types, reqs[k].action_type_id)->0.id,
            reqs[k].order_number@,
        ),
    ensures
        spec_actions(v, reqs).0 is Err,
        spec_actions(v, reqs).1 == v,
{
    if spec_validate_from(v, reqs, 0) is Ok {
        assert(spec_precheck_one(v, reqs[k]) is Err);
        lemma_precheck_from_err(v, reqs, 0, k);
    }
}

/// The fast-fail pass reports the first failing request's error; helper.
proof fn lemma_precheck_first_err(
    v: LedgerView,
    reqs: Seq<AccountActionRequest>,
    i: int,
    k: int,
)
    requires
        0 <= i <= k < reqs.len(),
        forall|j: int| 0 <= j < k ==> spec_precheck_one(v, #[trigger] reqs[j]) is Ok,
        spec_precheck_one(v, reqs[k]) is Err,
    ensures
        spec_precheck_from(v, reqs, i) == spec_precheck_one(v, reqs[k]),
    decreases k - i,
{
    if i < k {
        lemma_precheck_first_err(v, reqs, i + 1, k);
    }
}

/// Idempotency, batch-exact form: a well-formed batch whose first failing
/// request is one with an already-logged idempotency triple — every
/// earlier request passes the fast-fail checks, and this one addresses an
/// existing active account — fails with exactly `Conflict`, and leaves
/// every balance and the log unchanged.
pub proof fn lemma_idempotency_batch_conflict(
    v: LedgerView,
    reqs: Seq<AccountActionRequest>,
    k: int,
)
    requires
        0 <= k < reqs.len(),
        spec_validate_from(v, reqs, 0) is Ok,
        forall|j: int| 0 <= j < k ==> spec_precheck_one(v, #[trigger] reqs[j]) is Ok,
        spec_action_type(v.action_types, reqs[k].action_type_id) is Some,
        ({
            let oa = spec_find(v.accounts, reqs[k].user_id, reqs[k].asset_type_id);
            let at = spec_action_type(v.action_types, reqs[k].action_type_id)->0;
            &&& oa is Some
            &&& oa->0.is_active
            &&& spec_log_exists(v.logs, oa->0.id, at.id, reqs[k].order_number@)
        }),
    ensures
        spec_actions(v, reqs).0 == Err::<(), Error>(Error::Conflict),
        spec_actions(v, reqs).1 == v,
{
    assert(spec_precheck_one(v, reqs[k]) == Err::<(), Error>(Error::Conflict));
    lemma_precheck_first_err(v, reqs, 0, k);
}

/// Decrement floor, batch-exact form: a well-formed batch whose first
/// failing request is a decrement that the current value of the
/// decremented field cannot cover — every earlier request passes the
/// fast-fail checks, and this one addresses an existing active account
/// under a fresh order number — fails with exactly `InsufficientBalance`,
/// and leaves the ledger unchanged.
pub proof fn lemma_decrement_floor_batch(
    v: LedgerView,
    reqs: Seq<AccountActionRequest>,
    k: int,
)
    requires
        0 <= k < reqs.len(),
        spec_validate_from(v, reqs, 0) is Ok,
        forall|j: int| 0 <= j < k ==> spec_precheck_one(v, #[trigger] reqs[j]) is Ok,
        spec_action_type(v.action_types, reqs[k].action_type_id) is Some,
        ({
            let oa = spec_find(v.accounts, reqs[k].user_id, reqs[k].asset_type_id);
            let at = spec_action_type(v.action_types, reqs[k].action_type_id)->0;
            &&& oa is Some
            &&& oa->0.is_active
            &&& !spec_log_exists(v.logs, oa->0.id, at.id, reqs[k].order_number@)
            &&& ((at.available_balance_change == Change::Dec && (
            oa->0.available_balance as int) < spec_magnitude(reqs[k].amount as int)) || (
            at.frozen_balance_change == Change::Dec && (oa->0.frozen_balance as int)
                < spec_magnitude(reqs[k].amount as int)))
        }),
    ensures
        spec_actions(v, reqs).0 == Err::<(), Error>(Error::InsufficientBalance),
        spec_actions(v, reqs).1 == v,
{
    assert(spec_precheck_one(v, reqs[k]) == Err::<(), Error>(Error::InsufficientBalance));
    lemma_precheck_first_err(v, reqs, 0, k);
}

/// Idempotency, exact form: a single request that addresses an existing
/// active account but whose idempotency triple was already logged always
/// fails with `Conflict` — whatever the balances have become since the
/// first application — and leaves all four balances unchanged.
pub proof fn lemma_idempotency_conflict(v: LedgerView, req: AccountActionRequest)
    requires
        spec_action_request_valid(v.asset_types, req),
        spec_action_type(v.action_types, req.action_type_id) is Some,
        ({
            let oa = spec_find(v.accounts, req.user_id, req.asset_type_id);
            let at = spec_action_type(v.action_types, req.action_type_id)->0;
            &&& oa is Some
            &&& oa->0.is_active
            &&& spec_log_exists(v.logs, oa->0.id, at.id, req.order_number@)
        }),
    ensures
        spec_actions(v, seq![req]).0 == Err::<(), Error>(Error::Conflict),
        spec_actions(v, seq![req]).1 == v,
{
    let reqs = seq![req];
    assert(reqs[0] == req);
    assert(spec_validate_from(v, reqs, 1) is Ok);
    assert(spec_precheck_one(v, req) == Err::<(), Error>(Error::Conflict));
    assert(spec_precheck_from(v, reqs, 0) == Err::<(), Error>(Error::Conflict));
}

/// Decrement floor, rejection half: a single decrement whose magnitude
/// exceeds the current value of the balance field it decrements — the
/// request being otherwise applicable: well formed, account present and
/// active, order number not yet logged — always fails with
/// `InsufficientBalance` and leaves the ledger unchanged.
pub proof fn lemma_decrement_floor(v: LedgerView, req: AccountActionRequest)
    requires
        spec_action_request_valid(v.asset_types, req),
        spec_action_type(v.action_types, req.action_type_id) is Some,
        ({
            let oa = spec_find(v.accounts, req.user_id, req.asset_type_id);
            let at = spec_action_type(v.action_types, req.action_type_id)->0;
            &&& oa is Some
            &&& oa->0.is_active
            &&& !spec_log_exists(v.logs, oa->0.id, at.id, req.order_number@)
            &&& ((at.available_balance_change == Change::Dec && (
            oa->0.available_balance as int) < spec_magnitude(req.amount as int)) || (
            at.frozen_balance_change == Change::Dec && (oa->0.frozen_balance as int)
                < spec_magnitude(req.amount as int)))
        }),
    ensures
        spec_actions(v, seq![req]).0 == Err::<(), Error>(Error::InsufficientBalance),
        spec_actions(v, seq![req]).1 == v,
{
    let reqs = seq![req];
    assert(reqs[0] == req);
    assert(spec_validate_from(v, reqs, 1) is Ok);
    assert(spec_precheck_one(v, req) == Err::<(), Error>(Error::InsufficientBalance));
    assert(spec_precheck_from(v, reqs, 0) == Err::<(), Error>(Error::InsufficientBalance));
}

/// Decrement floor, observation half: in every state the engine can reach,
/// no account's available or frozen balance is negative — in particular
/// never right after a successful action, since every engine operation
/// preserves the invariant.
pub proof fn lemma_balances_nonnegative(v: LedgerView, i: int)
    requires
        inv(v),
        0 <= i < v.accounts.len(),
    ensures
        v.accounts[i].available_balance >= 0,
        v.accounts[i].frozen_balance >= 0,
{
    assert(v.accounts[i].available_balance >= 0);
}

/// The authoritative check: a batch of two decrements of one account,
/// each alone affordable against the committed balance — so the advisory
/// fast-fail pass cannot see the problem — but together over it, is
/// caught inside the transaction when the second resulting balance turns
/// negative, and fails as a whole with `InsufficientBalance`, leaving the
/// ledger unchanged.
pub proof fn lemma_joint_overdraft_caught_in_transaction(
    v: LedgerView,
    req1: AccountActionRequest,
    req2: AccountActionRequest,
)
    requires
        inv(v),
        v.next_log_id < i64::MAX,
        spec_action_request_valid(v.asset_types, req1),
        spec_action_request_valid(v.asset_types, req2),
        spec_action_type(v.action_types, req1.action_type_id) is Some,
        spec_action_type(v.action_types, req2.action_type_id) is Some,
        req2.user_id == req1.user_id,
        req2.asset_type_id == req1.asset_type_id,
        ({
            let oa = spec_find(v.accounts, req1.user_id, req1.asset_type_id);
            let at1 = spec_action_type(v.action_types, req1.action_type_id)->0;
            let at2 = spec_action_type(v.action_types, req2.action_type_id)->0;
            &&& oa is Some
            &&& oa->0.is_active
            &&& at1.available_balance_change == Change::Dec
            &&& at1.frozen_balance_change == Change::Nop
            &&& at1.total_income_change == Change::Nop
            &&& at1.total_expense_change == Change::Nop
            &&& at2.available_balance_change == Change::Dec
            &&& at2.frozen_balance_change == Change::Nop
            &&& at2.total_income_change == Change::Nop
            &&& at2.total_expense_change == Change::Nop
            &&& req1.amount <= oa->0.available_balance
            &&& req2.amount <= oa->0.available_balance
            &&& (oa->0.available_balance as int) < req1.amount + req2.amount
            &&& !spec_log_exists(v.logs, oa->0.id, at1.id, req1.order_number@)
            &&& !spec_log_exists(v.logs, oa->0.id, at2.id, req2.order_number@)
        }),
    ensures
        spec_actions(v, seq![req1, req2]).0 == Err::<(), Error>(Error::InsufficientBalance),
        spec_actions(v, seq![req1, req2]).1 == v,
{
    let reqs = seq![req1, req2];
    assert(reqs[0] == req1);
    assert(reqs[1] == req2);
    let user_id = req1.user_id;
    let asset_type_id = req1.asset_type_id;
    let a = spec_find(v.accounts, user_id, asset_type_id)->0;
    let at1 = spec_action_type(v.action_types, req1.action_type_id)->0;
    let at2 = spec_action_type(v.action_types, req2.action_type_id)->0;

    // Validation and the advisory pass see nothing wrong: against the
    // committed balance, each decrement alone is affordable.
    assert(spec_validate_from(v, reqs, 2) is Ok);
    assert(spec_validate_from(v, reqs, 1) is Ok);
    assert(spec_magnitude(req1.amount as int) == req1.amount);
    assert(spec_magnitude(req2.amount as int) == req2.amount);
    assert(spec_precheck_one(v, req1) is Ok);
    assert(spec_precheck_one(v, req2) is Ok);
    assert(spec_precheck_from(v, reqs, 2) is Ok);
    assert(spec_precheck_from(v, reqs, 1) is Ok);
    assert(spec_precheck_from(v, reqs, 0) is Ok);

    // In the transaction, the first decrement goes through.
    lemma_find_index_from_props(v.accounts, user_id, asset_type_id, 0);
    let i = spec_find_index(v.accounts, user_id, asset_type_id)->0;
    assert(v.accounts[i] == a);
    let d1 = spec_change(at1.available_balance_change, req1.amount as int);
    assert(d1 == -(req1.amount as int));
    assert(a.available_balance >= 0);
    assert(spec_deltas_fit(a, d1, 0, 0, 0));
    let updated = spec_with_deltas(a, d1, 0, 0, 0);
    assert(updated.available_balance as int == a.available_balance - req1.amount);
    assert(spec_apply_one(v, req1) is Ok);
    let v1 = spec_apply_one(v, req1)->Ok_0;
    lemma_find_index_update(v.accounts, user_id, asset_type_id, i, updated);
    assert(spec_find_index(v1.accounts, user_id, asset_type_id) == Some(i));
    assert(spec_find(v1.accounts, user_id, asset_type_id) == Some(updated));

    // The second decrement drives the balance negative, and the
    // authoritative post-update check aborts the whole batch.
    let d2 = spec_change(at2.available_balance_change, req2.amount as int);
    assert(d2 == -(req2.amount as int));
    assert(spec_deltas_fit(updated, d2, 0, 0, 0));
    let updated2 = spec_with_deltas(updated, d2, 0, 0, 0);
    assert(updated2.available_balance as int == a.available_balance - req1.amount - req2.amount);
    assert(updated2.available_balance < 0);
    assert(spec_apply_one(v1, req2) == Err::<LedgerView, Error>(Error::InsufficientBalance));
    assert(spec_apply_from(v1, reqs, 1) == Err::<LedgerView, Error>(Error::InsufficientBalance));
    assert(spec_apply_from(v, reqs, 0) == Err::<LedgerView, Error>(Error::InsufficientBalance));
}

/// Concurrency safety: two single-decrement batches against the same
/// account, serialized by the store one after the other; each is
/// affordable against the balance at submission time, together they
/// exceed it. The first succeeds, the second fails with
/// `InsufficientBalance`, the second leaves the state of the first, and
/// the final balance is the first decrement's remainder — never negative.
pub proof fn lemma_concurrent_decrements(
    v: LedgerView,
    req1: AccountActionRequest,
    req2: AccountActionRequest,
)
    requires
        inv(v),
        v.next_log_id < i64::MAX,
        spec_action_request_valid(v.asset_types, req1),
        spec_action_request_valid(v.asset_types, req2),
        spec_action_type(v.action_types, req1.action_type_id) is Some,
        spec_action_type(v.action_types, req2.action_type_id) is Some,
        req2.user_id == req1.user_id,
        req2.asset_type_id == req1.asset_type_id,
        req1.order_number@ != req2.order_number@,
        ({
            let oa = spec_find(v.accounts, req1.user_id, req1.asset_type_id);
            let at1 = spec_action_type(v.action_types, req1.action_type_id)->0;
            let at2 = spec_action_type(v.action_types, req2.action_type_id)->0;
            &&& oa is Some
            &&& oa->0.is_active
            &&& at1.available_balance_change == Change::Dec
            &&& at1.frozen_balance_change == Change::Nop
            &&& at1.total_income_change == Change::Nop
            &&& at1.total_expense_change == Change::Nop
            &&& at2.available_balance_change == Change::Dec
            &&& at2.frozen_balance_change == Change::Nop
            &&& at2.total_income_change == Change::Nop
            &&& at2.total_expense_change == Change::Nop
            &&& req1.amount <= oa->0.available_balance
            &&& req2.amount <= oa->0.available_balance
            &&& (oa->0.available_balance as int) < req1.amount + req2.amount
            &&& !spec_log_exists(v.logs, oa->0.id, at1.id, req1.order_number@)
            &&& !spec_log_exists(v.logs, oa->0.id, at2.id, req2.order_number@)
        }),
    ensures
        ({
            let r1 = spec_actions(v, seq![req1]);
            let r2 = spec_actions(r1.1, seq![req2]);
            let oa = spec_find(v.accounts, req1.user_id, req1.asset_type_id);
            let after = spec_find(r1.1.accounts, req1.user_id, req1.asset_type_id);
            &&& r1.0 == Ok::<(), Error>(())
            &&& r2.0 == Err::<(), Error>(Error::InsufficientBalance)
            &&& r2.1 == r1.1
            &&& after is Some
            &&& after->0.available_balance as int == oa->0.available_balance - req1.amount
            &&& after->0.available_balance >= 0
        }),
{
    let reqs1 = seq![req1];
    let reqs2 = seq![req2];
    assert(reqs1[0] == req1);
    assert(reqs2[0] == req2);
    let user_id = req1.user_id;
    let asset_type_id = req1.asset_type_id;
    let a = spec_find(v.accounts, user_id, asset_type_id)->0;
    let at1 = spec_action_type(v.action_types, req1.action_type_id)->0;
    let at2 = spec_action_type(v.action_types, req2.action_type_id)->0;

    // First batch: validation and fast-fail pass go through.
    assert(spec_validate_from(v, reqs1, 1) is Ok);
    assert(spec_magnitude(req1.amount as int) == req1.amount);
    assert(spec_precheck_one(v, req1) is Ok);
    assert(spec_precheck_from(v, reqs1, 1) is Ok);

    // First batch: the transactional pass succeeds.
    lemma_find_index_from_props(v.accounts, user_id, asset_type_id, 0);
    let i = spec_find_index(v.accounts, user_id, asset_type_id)->0;
    assert(v.accounts[i] == a);
    let d_available = spec_change(at1.available_balance_change, req1.amount as int);
    assert(d_available == -(req1.amount as int));
    assert(a.available_balance >= 0);
    assert(spec_deltas_fit(a, d_available, 0, 0, 0));
    let updated = spec_with_deltas(a, d_available, 0, 0, 0);
    assert(updated.available_balance as int == a.available_balance - req1.amount);
    assert(spec_apply_one(v, req1) is Ok);
    let v1 = spec_apply_one(v, req1)->Ok_0;
    assert(spec_apply_from(v1, reqs1, 1) == Ok::<LedgerView, Error>(v1));
    assert(spec_apply_from(v, reqs1, 0) == Ok::<LedgerView, Error>(v1));
    assert(spec_actions(v, reqs1) == (Ok::<(), Error>(()), v1));

    // The account as the second batch observes it.
    lemma_find_index_update(v.accounts, user_id, asset_type_id, i, updated);
    assert(spec_find(v1.accounts, user_id, asset_type_id) == Some(updated));

    // Second batch: validation passes (the catalogs are untouched), and
    // the fast-fail pass hits the floor: the remainder cannot cover it.
    assert(v1.asset_types == v.asset_types && v1.action_types == v.action_types);
    assert(spec_validate_from(v1, reqs2, 1) is Ok);
    assert(spec_magnitude(req2.amount as int) == req2.amount);
    assert((updated.available_balance as int) < req2.amount);
    assert(spec_precheck_one(v1, req2) == Err::<(), Error>(Error::InsufficientBalance));
    assert(spec_precheck_from(v1, reqs2, 0) == Err::<(), Error>(Error::InsufficientBalance));
    assert(spec_actions(v1, reqs2) == (Err::<(), Error>(Error::InsufficientBalance), v1));
}

} // verus!
