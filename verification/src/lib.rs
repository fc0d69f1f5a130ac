//! Verified core of the IB CRM desktop application: the rules that decide
//! who may do what, how records are validated and transformed, and the
//! backup file format.  Storage, networking and UI live outside this crate.
use vstd::prelude::*;

pub mod absence;
pub mod agents;
pub mod backup;
pub mod birthdays;
pub mod blog;
pub mod chat;
pub mod clients;
pub mod edit_requests;
pub mod employees;
pub mod errors;
pub mod laws;
pub mod numbering;
pub mod ordering;
pub mod paths;
pub mod posts;
pub mod session;
pub mod settings;
pub mod tasks;
pub mod text;
pub mod projects;
pub mod records;
pub mod regulations;
pub mod reports;
pub mod views;
pub mod workplace;

verus! {

} // verus!
