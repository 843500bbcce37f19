use vstd::prelude::*;
use vstd::string::StrSliceExecFns;
use crate::asset_type::{AssetTypeModel, spec_asset_type_active};
use crate::error::Error;

verus! {

/// A request to create an account or to look one up.
pub struct AccountRequest {
    pub user_id: i32,
    pub asset_type_id: i32,
}

/// One balance-changing operation: apply the action type to the account of
/// (user_id, asset_type_id) with the given amount (a positive fixed-point
/// magnitude in millionths of a unit). `order_number` is the caller's
/// external reference and part of the idempotency key.
pub struct AccountActionRequest {
    pub user_id: i32,
    pub asset_type_id: i32,
    pub action_type_id: i32,
    pub amount: i64,
    pub order_number: String,
    pub description: String,
}

/// What the validation layer demands of an account request: a positive user
/// id and an asset type the registry holds as active.
pub open spec fn spec_account_request_valid(
    asset_types: Seq<AssetTypeModel>,
    req: AccountRequest,
) -> bool {
    &&& req.user_id >= 1
    &&& spec_asset_type_active(asset_types, req.asset_type_id)
}

/// What the validation layer demands of an action request: positive user
/// id, an active asset type, a positive amount (at least one millionth),
/// an order number of at least 32 characters, and a non-empty description.
/// Whether the action type id resolves is not a matter of form: the
/// engine's catalog lookup answers that, with `NotFound` for an unknown
/// or inactive id.
pub open spec fn spec_action_request_valid(
    asset_types: Seq<AssetTypeModel>,
    req: AccountActionRequest,
) -> bool {
    &&& req.user_id >= 1
    &&& spec_asset_type_active(asset_types, req.asset_type_id)
    &&& req.amount >= 1
    &&& req.order_number@.len() >= 32
    &&& req.description@.len() >= 1
}

impl AccountRequest {
    /// Reject a malformed request before it reaches any store access.
    pub fn validate(&self, asset_types: &Vec<AssetTypeModel>) -> (r: Result<(), Error>)
        ensures
            r == if spec_account_request_valid(asset_types@, *self) {
                Ok::<(), Error>(())
            } else {
                Err::<(), Error>(Error::Validation)
            },
    {
        if self.user_id < 1 {
            return Err(Error::Validation);
        }
        if !AssetTypeModel::is_active(asset_types, self.asset_type_id) {
            return Err(Error::Validation);
        }
        Ok(())
    }
}

impl AccountActionRequest {
    /// Reject a malformed request before it reaches any store access.
    pub fn validate(&self, asset_types: &Vec<AssetTypeModel>) -> (r: Result<(), Error>)
        ensures
            r == if spec_action_request_valid(asset_types@, *self) {
                Ok::<(), Error>(())
            } else {
                Err::<(), Error>(Error::Validation)
            },
    {
        if self.user_id < 1 {
            return Err(Error::Validation);
        }
        if !AssetTypeModel::is_active(asset_types, self.asset_type_id) {
            return Err(Error::Validation);
        }
        if self.amount < 1 {
            return Err(Error::Validation);
        }
        if self.order_number.as_str().unicode_len() < 32 {
            return Err(Error::Validation);
        }
        if self.description.as_str().unicode_len() < 1 {
            return Err(Error::Validation);
        }
        Ok(())
    }
}

} // verus!
