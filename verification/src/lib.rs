//! Account bookkeeping for an authentication service: the records that
//! travel between the HTTP layer and the users table, and the decisions
//! that the service and its handlers take on what the table answers.

pub mod handlers;
pub mod models;
pub mod services;
