//! The records of the vulnerability database that the handlers compute on,
//! as plain values.

pub mod fix_commits;
pub mod timestamp;
pub mod vulnerabilities;
