//! Questions, answers and accounts of a Q&A service: pagination of listings,
//! the failures and how the backend's are classified, the store with its
//! owners, and the rule that only an owner may change a question.
use vstd::prelude::*;

pub mod authorization;
pub mod error;
pub mod question;
pub mod routes;
pub mod store;
pub mod types;

verus! {

} // verus!
