//! Small transfer shapes shared across endpoints: the uniform error body,
//! the authenticated-user body, and the plain pagination envelope.

use vstd::prelude::*;

verus! {

use crate::models::Count;

/// The uniform structured error body sent to clients.
#[derive(Debug, Clone)]
pub struct Error {
    pub error: String,
    pub message: String,
}

/// The authenticated user, as returned by the credential endpoints.
#[derive(Debug, Clone)]
pub struct User {
    pub id: i64,
    pub username: String,
    pub role: String,
}

/// A plain pagination envelope with its defaults.
#[derive(Debug, Clone, Copy, PartialEq, Eq, Structural)]
pub struct Pagination {
    pub page: u32,
    pub limit: u32,
}

/// The default page of the plain pagination envelope.
pub fn default_page() -> (r: u32)
    ensures
        r == 1,
{
    1
}

/// The default limit of the plain pagination envelope.
pub fn default_limit() -> (r: u32)
    ensures
        r == 25,
{
    25
}

/// A counted listing with its window.
#[derive(Debug)]
pub struct All {
    pub page: u32,
    pub limit: u32,
    pub total: i64,
    pub rows: i64,
    pub data: Vec<Count>,
}

} // verus!
