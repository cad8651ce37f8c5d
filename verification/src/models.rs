//! Plain records of the relational store. Timestamps are carried as whole
//! seconds since the epoch.

use vstd::prelude::*;

verus! {

use crate::requests::FieldError;

/// One row of the counter table.
#[derive(Debug, Clone)]
pub struct Count {
    pub id: i64,
    pub username: String,
    pub word: String,
    pub count: i64,
}

/// One item held by a user of a point store.
#[derive(Debug, Clone, Copy, PartialEq, Eq, Structural)]
pub struct Item {
    pub id: i64,
    pub user_id: i64,
    pub option_id: i64,
    pub count: i64,
}

/// A pinned item of an activity feed.
#[derive(Debug, Clone, Copy, PartialEq, Eq, Structural)]
pub struct Pinned {
    pub id: i64,
    pub user_id: i64,
    pub system_id: i64,
    pub item_id: i64,
}

/// A named system.
#[derive(Debug, Clone)]
pub struct System {
    pub id: i64,
    pub name: String,
}

/// A system to be created.
#[derive(Debug, Clone)]
pub struct NewSystem {
    pub name: String,
}

/// A point store to be created.
#[derive(Debug, Clone)]
pub struct NewStore {
    pub owner_id: i64,
    pub title: String,
    pub currency: String,
}

/// A point-store membership to be created.
#[derive(Debug, Clone, Copy, PartialEq, Eq, Structural)]
pub struct NewUser {
    pub user_id: i64,
    pub store_id: i64,
    pub balance: i64,
}

/// A purchasable option to be created.
#[derive(Debug, Clone)]
pub struct NewOption {
    pub store_id: i64,
    pub value: i64,
    pub title: String,
    pub description: Option<String>,
    pub stock: Option<i64>,
}

/// A point transaction to be created.
#[derive(Debug, Clone)]
pub struct NewTransaction {
    pub store_id: i64,
    pub user_id: i64,
    pub value: i64,
    pub discount: i64,
    pub title: String,
}

/// A transaction value must move points one way or the other.
pub fn non_zero(value: i64) -> (r: Result<(), FieldError>)
    ensures
        r is Ok <==> value != 0,
{
    if value != 0 {
        Result::Ok(())
    } else {
        Result::Err(FieldError::Value)
    }
}

} // verus!
