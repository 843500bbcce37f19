use vstd::prelude::*;
use crate::error::Error;

verus! {

/// One immutable record of a successfully applied action: the four signed
/// deltas, the four balances right after, and the caller's order number.
/// The triple (account_id, action_type_id, order_number) is the idempotency
/// key and is unique over the whole log.
pub struct AccountLogModel {
    pub id: i64,
    pub account_id: i32,
    pub action_type_id: i32,
    pub amount_available_balance: i64,
    pub amount_frozen_balance: i64,
    pub amount_total_income: i64,
    pub amount_total_expense: i64,
    pub available_balance_after: i64,
    pub frozen_balance_after: i64,
    pub total_income_after: i64,
    pub total_expense_after: i64,
    pub order_number: String,
    pub description: String,
}

/// Whether a record carries the given idempotency triple.
pub open spec fn triple_matches(
    l: AccountLogModel,
    account_id: i32,
    action_type_id: i32,
    order_number: Seq<char>,
) -> bool {
    l.account_id == account_id && l.action_type_id == action_type_id && l.order_number@
        == order_number
}

/// Whether some record carries the given idempotency triple.
pub open spec fn spec_log_exists(
    logs: Seq<AccountLogModel>,
    account_id: i32,
    action_type_id: i32,
    order_number: Seq<char>,
) -> bool {
    exists|i: int|
        0 <= i < logs.len() && triple_matches(logs[i], account_id, action_type_id, order_number)
}

/// A triple is in a concatenation of logs exactly when it is in one part.
pub proof fn lemma_log_exists_append(
    a: Seq<AccountLogModel>,
    b: Seq<AccountLogModel>,
    account_id: i32,
    action_type_id: i32,
    order_number: Seq<char>,
)
    ensures
        spec_log_exists(a + b, account_id, action_type_id, order_number) == (spec_log_exists(
            a,
            account_id,
            action_type_id,
            order_number,
        ) || spec_log_exists(b, account_id, action_type_id, order_number)),
{
    if spec_log_exists(a, account_id, action_type_id, order_number) {
        let i = choose|i: int|
            0 <= i < a.len() && triple_matches(a[i], account_id, action_type_id, order_number);
        assert(triple_matches((a + b)[i], account_id, action_type_id, order_number));
    }
    if spec_log_exists(b, account_id, action_type_id, order_number) {
        let i = choose|i: int|
            0 <= i < b.len() && triple_matches(b[i], account_id, action_type_id, order_number);
        assert(triple_matches((a + b)[a.len() + i], account_id, action_type_id, order_number));
    }
    if spec_log_exists(a + b, account_id, action_type_id, order_number) {
        let i = choose|i: int|
            0 <= i < (a + b).len() && triple_matches(
                (a + b)[i],
                account_id,
                action_type_id,
                order_number,
            );
        if i < a.len() {
            assert(triple_matches(a[i], account_id, action_type_id, order_number));
        } else {
            assert(triple_matches(b[i - a.len()], account_id, action_type_id, order_number));
        }
    }
}

impl AccountLogModel {
    /// Whether a record with the given idempotency triple exists: the
    /// idempotency probe.
    pub fn is_exists(
        logs: &Vec<AccountLogModel>,
        account_id: i32,
        action_type_id: i32,
        order_number: &String,
    ) -> (r: bool)
        ensures
            r == spec_log_exists(logs@, account_id, action_type_id, order_number@),
    {
        let mut i: usize = 0;
        while i < logs.len()
            invariant
                0 <= i <= logs.len(),
                forall|j: int|
                    0 <= j < i ==> !triple_matches(
                        logs@[j],
                        account_id,
                        action_type_id,
                        order_number@,
                    ),
            decreases logs.len() - i,
        {
            if logs[i].account_id == account_id && logs[i].action_type_id == action_type_id
                && logs[i].order_number == *order_number {
                return true;
            }
            i = i + 1;
        }
        false
    }

    /// Append the audit and idempotency record for one applied action to
    /// the transaction's fresh records. `logs` holds the committed records;
    /// the triple must be new with respect to both, else `Conflict`, which
    /// models the store's uniqueness constraint on the triple.
    pub fn create(
        logs: &Vec<AccountLogModel>,
        tx_logs: &mut Vec<AccountLogModel>,
        id: i64,
        account_id: i32,
        action_type_id: i32,
        amount_available_balance: i64,
        amount_frozen_balance: i64,
        amount_total_income: i64,
        amount_total_expense: i64,
        available_balance_after: i64,
        frozen_balance_after: i64,
        total_income_after: i64,
        total_expense_after: i64,
        order_number: String,
        description: String,
    ) -> (r: Result<(), Error>)
        ensures
            ({
                let record = (AccountLogModel {
                    id,
                    account_id,
                    action_type_id,
                    amount_available_balance,
                    amount_frozen_balance,
                    amount_total_income,
                    amount_total_expense,
                    available_balance_after,
                    frozen_balance_after,
                    total_income_after,
                    total_expense_after,
                    order_number,
                    description,
                });
                if spec_log_exists(
                    logs@ + old(tx_logs)@,
                    account_id,
                    action_type_id,
                    order_number@,
                ) {
                    r == Err::<(), Error>(Error::Conflict) && final(tx_logs)@ == old(tx_logs)@
                } else {
                    r == Ok::<(), Error>(()) && final(tx_logs)@ == old(tx_logs)@.push(record)
                }
            }),
    {
        proof {
            lemma_log_exists_append(logs@, tx_logs@, account_id, action_type_id, order_number@);
        }
        if AccountLogModel::is_exists(logs, account_id, action_type_id, &order_number)
            || AccountLogModel::is_exists(tx_logs, account_id, action_type_id, &order_number) {
            return Err(Error::Conflict);
        }
        let record = AccountLogModel {
            id,
            account_id,
            action_type_id,
            amount_available_balance,
            amount_frozen_balance,
            amount_total_income,
            amount_total_expense,
            available_balance_after,
            frozen_balance_after,
            total_income_after,
            total_expense_after,
            order_number,
            description,
        };
        tx_logs.push(record);
        Ok(())
    }
}

} // verus!
