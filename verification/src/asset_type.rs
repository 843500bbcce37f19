use vstd::prelude::*;

verus! {

/// One asset type row from the activation registry: what kind of value an
/// account holds.
pub struct AssetTypeModel {
    pub id: i32,
    pub name: String,
    pub description: String,
    pub is_active: bool,
}

/// Whether the registry holds an active row with the given id, looking
/// from `i` on.
pub open spec fn spec_asset_type_active_from(rows: Seq<AssetTypeModel>, id: i32, i: int) -> bool
    decreases rows.len() - i,
{
    if i < 0 || i >= rows.len() {
        false
    } else if rows[i].id == id && rows[i].is_active {
        true
    } else {
        spec_asset_type_active_from(rows, id, i + 1)
    }
}

/// Whether the registry holds an active row with the given id.
pub open spec fn spec_asset_type_active(rows: Seq<AssetTypeModel>, id: i32) -> bool {
    spec_asset_type_active_from(rows, id, 0)
}

impl AssetTypeModel {
    /// Registry lookup: whether an active row with the given id exists.
    /// Inactive rows are treated as absent.
    pub fn is_active(rows: &Vec<AssetTypeModel>, id: i32) -> (r: bool)
        ensures
            r == spec_asset_type_active(rows@, id),
    {
        let mut i: usize = 0;
        while i < rows.len()
            invariant
                0 <= i <= rows.len(),
                spec_asset_type_active(rows@, id) == spec_asset_type_active_from(
                    rows@,
                    id,
                    i as int,
                ),
            decreases rows.len() - i,
        {
            if rows[i].id == id && rows[i].is_active {
                return true;
            }
            i = i + 1;
        }
        false
    }
}

} // verus!
