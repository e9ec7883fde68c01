//! The entries of a list of groups.

use vstd::prelude::*;

verus! {

/// One group.
#[derive(Clone, Debug, PartialEq, Eq, Default)]
pub struct Group {
    pub group_id: i64,
    pub group_name: String,
    pub member_count: i32,
    pub max_member_count: i32,
}

} // verus!
