//! Records of the database tables.

use vstd::prelude::*;

verus! {

/// A row of the `items` table.
#[derive(Debug, PartialEq, Eq)]
pub struct Item {
    /// Primary key, assigned by the database.
    pub id: i64,
    /// Display name of the item.
    pub title: String,
    /// Optional description.
    pub description: Option<String>,
    /// ISO 8601 timestamp of creation.
    pub created_at: String,
}

} // verus!
