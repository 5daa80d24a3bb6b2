//! Stored and inbound data shapes. Timestamps are unix seconds; a date of
//! birth is a day count. An oath owns its remedies: a remedy is created only
//! inside its oath's create call and never independently.

use vstd::prelude::*;
use crate::unit::Unit;

verus! {

/// One remedial action of an inbound create request: when it applies, what to
/// do, and an optional typed quantity.
#[derive(Debug, Clone)]
pub struct CreateRemedyModel {
    pub condition: String,
    pub statement: String,
    pub unit: Option<Unit>,
}

/// An inbound create request: the commitment, its penalty, its time bounds,
/// a free-text alias for the end bound, and the remedies to attach.
#[derive(Debug, Clone)]
pub struct CreateOathModel {
    pub target: String,
    pub remedies: Vec<CreateRemedyModel>,
    pub penalty: String,
    pub starts_at: i64,
    pub ends_at: i64,
    pub ends_at_alias: String,
}

/// A stored user row.
#[derive(Debug, Clone)]
pub struct CreateUserSchema {
    pub id: i32,
    pub first_name: String,
    pub last_name: Option<String>,
    /// Days since the unix epoch.
    pub date_of_birth: i64,
    pub created_at: i64,
}

/// A stored remedy: the quantity is held relationally as two columns that are
/// both present or both absent.
#[derive(Debug, Clone)]
pub struct RemedySchema {
    pub id: i32,
    pub condition: String,
    pub statement: String,
    pub n: Option<i32>,
    pub unit: Option<String>,
    pub created_at: i64,
}

/// A stored oath together with its full remedy collection, as the gateway
/// returns it. A childless oath carries `Some` of an empty collection.
#[derive(Debug, Clone)]
pub struct OathSchema {
    pub id: i32,
    pub target: String,
    pub penalty: String,
    pub created_at: i64,
    pub starts_at: i64,
    pub ends_at: i64,
    pub ends_at_alias: String,
    pub remedies: Option<Vec<RemedySchema>>,
}

/// View equality of two optional strings.
pub open spec fn opt_str_eq(a: Option<String>, b: Option<String>) -> bool {
    match (a, b) {
        (Some(x), Some(y)) => x@ == y@,
        (None, None) => true,
        _ => false,
    }
}

} // verus!
