pub mod user;
pub mod table;
