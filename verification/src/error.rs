use vstd::prelude::*;

verus! {

/// The ways a ledger operation can fail.
#[derive(Clone, Copy, Debug, PartialEq, Eq, Structural)]
pub enum Error {
    /// The request itself is malformed (bad id, amount, order number or
    /// description), or names an asset type the registry does not hold
    /// as active.
    Validation,
    /// The account addressed by the request does not exist, or an action
    /// type id does not resolve to an active catalog entry.
    NotFound,
    /// The account exists but is not active.
    Forbidden,
    /// The account already exists (on creation), or the idempotency triple
    /// (account, action type, order number) was already logged.
    Conflict,
    /// A decrement asks for more than the balance field holds.
    InsufficientBalance,
    /// The store cannot represent the result (a balance or an id would
    /// leave its machine range).
    Internal,
}

impl Error {
    /// A short stable name for the error, for callers that report it.
    pub fn as_text(&self) -> (r: &'static str)
        ensures
            r@ =~= self.spec_text(),
    {
        proof {
            reveal_strlit("validation");
            reveal_strlit("not_found");
            reveal_strlit("forbidden");
            reveal_strlit("conflict");
            reveal_strlit("insufficient_balance");
            reveal_strlit("internal");
        }
        match self {
            Error::Validation => "validation",
            Error::NotFound => "not_found",
            Error::Forbidden => "forbidden",
            Error::Conflict => "conflict",
            Error::InsufficientBalance => "insufficient_balance",
            Error::Internal => "internal",
        }
    }

    pub open spec fn spec_text(self) -> Seq<char> {
        match self {
            Error::Validation => "validation"@,
            Error::NotFound => "not_found"@,
            Error::Forbidden => "forbidden"@,
            Error::Conflict => "conflict"@,
            Error::InsufficientBalance => "insufficient_balance"@,
            Error::Internal => "internal"@,
        }
    }
}

} // verus!
