//! Inventory service core.
//!
//! - `credential`: issuing and verifying signed bearer credentials.
//! - `gate`: the authentication and role-authorization stages applied to
//!   every request, and the ordered pipeline that runs them.
//! - `roles`: the closed set of roles and the admission rule.
//! - `ledger`: movement kinds and their effect on a stock level.
//! - `movement`: the atomic unit that records a movement together with its
//!   quantity change, as a step machine driven against the store.
//! - `login`, `password`: the login decision and password hashing.
//! - `records`, `numeric`, `text`: request records, configuration, and the
//!   text helpers they rest on.

pub mod text;
pub mod roles;
pub mod ledger;
pub mod movement;
pub mod credential;
pub mod gate;
pub mod password;
pub mod numeric;
pub mod records;
pub mod login;
