//! The central record: one vulnerability of one package.

use vstd::prelude::*;
use sea_orm::entity::prelude::DateTime;

verus! {

/// A vulnerability as the database holds it.
#[derive(Debug)]
pub struct Model {
    pub id: i32,
    pub package_name: String,
    pub severity_id: i32,
    pub type_id: i32,
    pub summary: Option<String>,
    pub details: Option<String>,
    pub published_at: Option<DateTime>,
    pub created_at: Option<DateTime>,
    pub updated_at: Option<DateTime>,
}

} // verus!
