//! A small contact book kept in an embedded SQLite database: addresses, and
//! persons that may refer to one of them.
pub mod data;

pub use data::database::Database;
pub use data::{Address, Error, Person};
