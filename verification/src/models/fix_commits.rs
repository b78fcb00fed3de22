//! The commits that fix a vulnerability.

use vstd::prelude::*;
use sea_orm::entity::prelude::DateTime;

verus! {

/// A fix commit as the database holds it.
#[derive(Debug)]
pub struct Model {
    pub id: i32,
    pub vulnerability_id: i32,
    pub commit_hash: String,
    pub repository_url: String,
    pub commit_message: Option<String>,
    pub committed_at: Option<DateTime>,
    pub num_files_changed: Option<i32>,
    pub num_additions: Option<i32>,
    pub num_deletions: Option<i32>,
    pub created_at: Option<DateTime>,
}

/// The identifiers of a list of commits, in the order of the list.
pub open spec fn ids_of(commits: Seq<Model>) -> Seq<i32> {
    commits.map_values(|commit: Model| commit.id)
}

} // verus!
