//! A census of the constructs of a program that step outside the language's
//! safety checks: functions, traits, trait implementations and blocks, with
//! the records that a vulnerability database serves about them.

pub mod ident;
pub mod resolve;
pub mod finding;
pub mod hir;
pub mod census;
pub mod laws;
pub mod items;
pub mod tree;
pub mod handlers;
pub mod models;
