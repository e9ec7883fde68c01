//! The people behind a message in a group.

use vstd::prelude::*;

verus! {

/// Who hides behind an anonymous message.
#[derive(Clone, Debug, PartialEq, Eq, Default)]
pub struct Anonymous {
    pub id: i64,
    pub name: String,
    pub flag: String,
}

/// Who sent a message in a group.
#[derive(Clone, Debug, PartialEq, Eq, Default)]
pub struct Sender {
    pub user_id: i64,
    pub nickname: String,
    pub card: String,
    pub sex: String,
    pub age: i32,
    pub area: String,
    pub level: String,
    pub role: String,
    pub title: String,
}

} // verus!
