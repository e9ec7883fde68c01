//! The people behind a private message.

use vstd::prelude::*;

verus! {

/// Who sent a private message.
#[derive(Clone, Debug, PartialEq, Eq, Default)]
pub struct Sender {
    pub user_id: i64,
    pub nickname: String,
    pub sex: String,
    pub age: i32,
}

} // verus!
