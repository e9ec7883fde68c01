//! The entries of a list of friends.

use vstd::prelude::*;

verus! {

/// One friend.
#[derive(Clone, Debug, PartialEq, Eq, Default)]
pub struct Friend {
    pub user_id: i64,
    pub nickname: String,
    pub remark: String,
}

} // verus!
