use vstd::prelude::*;

verus! {

/// How an action type affects one balance field: increase it by the action's
/// amount, decrease it by the amount, or leave it alone.
#[derive(Clone, Copy, Debug, PartialEq, Eq, Structural)]
pub enum Change {
    Inc,
    Dec,
    Nop,
}

/// The signed delta a change applies for a given amount: the magnitude of
/// `amount` with the sign the change dictates, in millionths of a unit.
pub open spec fn spec_change(c: Change, amount: int) -> int {
    let magnitude = if amount < 0 { -amount } else { amount };
    match c {
        Change::Inc => magnitude,
        Change::Dec => -magnitude,
        Change::Nop => 0,
    }
}

impl Change {
    /// The signed balance delta this change applies for `amount`
    /// (a fixed-point value in millionths of a unit).
    pub fn calculate_change(&self, amount: i64) -> (r: i64)
        requires
            amount != i64::MIN,
        ensures
            r == spec_change(*self, amount as int),
    {
        let magnitude: i64 = if amount < 0 { -amount } else { amount };
        match self {
            Change::Inc => magnitude,
            Change::Dec => -magnitude,
            Change::Nop => 0,
        }
    }
}

/// One operation definition: which of the four balance fields the operation
/// increments, decrements or leaves alone.
pub struct ActionTypeModel {
    pub id: i32,
    pub name: String,
    pub description: String,
    pub available_balance_change: Change,
    pub frozen_balance_change: Change,
    pub total_income_change: Change,
    pub total_expense_change: Change,
    pub is_active: bool,
}

/// The first active catalog row with the given id, if any, starting at `i`.
pub open spec fn spec_action_type_from(
    rows: Seq<ActionTypeModel>,
    id: i32,
    i: int,
) -> Option<ActionTypeModel>
    decreases rows.len() - i,
{
    if i < 0 || i >= rows.len() {
        None
    } else if rows[i].id == id && rows[i].is_active {
        Some(rows[i])
    } else {
        spec_action_type_from(rows, id, i + 1)
    }
}

/// The active catalog row with the given id, if any.
pub open spec fn spec_action_type(rows: Seq<ActionTypeModel>, id: i32) -> Option<ActionTypeModel> {
    spec_action_type_from(rows, id, 0)
}

impl ActionTypeModel {
    /// Catalog lookup: the first active row with the given id.
    /// Inactive rows are treated as absent.
    pub fn by_id(rows: &Vec<ActionTypeModel>, id: i32) -> (r: Option<&ActionTypeModel>)
        ensures
            match r {
                Some(at) => spec_action_type(rows@, id) == Some(*at),
                None => spec_action_type(rows@, id) is None,
            },
    {
        let mut i: usize = 0;
        while i < rows.len()
            invariant
                0 <= i <= rows.len(),
                spec_action_type(rows@, id) == spec_action_type_from(rows@, id, i as int),
            decreases rows.len() - i,
        {
            if rows[i].id == id && rows[i].is_active {
                return Some(&rows[i]);
            }
            i = i + 1;
        }
        None
    }

    /// Whether the catalog holds an active row with the given id.
    pub fn is_active(rows: &Vec<ActionTypeModel>, id: i32) -> (r: bool)
        ensures
            r == (spec_action_type(rows@, id) is Some),
    {
        ActionTypeModel::by_id(rows, id).is_some()
    }
}

} // verus!
