//! What the handlers of the database API decide and compute between the
//! query that they make and the answer that they send.

pub mod health;
pub mod status;
pub mod vulnerabilities;
