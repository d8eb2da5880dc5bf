//! Sessions, permissions and account storage for an address-book service:
//! signed session tokens, the rules that gate each operation, and the tables of
//! accounts and address books that change together.

pub mod database;
pub mod server;
pub mod ui;
