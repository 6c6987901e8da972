//! Records of the catalog.

use vstd::prelude::*;

verus! {

/// One released version of an engine.
#[derive(Debug, Clone, PartialEq, Eq)]
pub struct EngineVersion {
    pub id: String,
    pub engine_id: String,
    pub version: String,
    pub description: String,
    pub created_at: String,
}

/// A user of the catalog.
#[derive(Debug, Clone, PartialEq, Eq)]
pub struct User {
    pub id: String,
    pub username: String,
    pub email: String,
    pub created_at: String,
    pub updated_at: String,
}

} // verus!
