//! Creator Mailer's roster: the creators of one table, edited in memory by
//! row position and written back one statement per record.
//!
//! The library decides and the caller acts. It never opens a database: it
//! hands out statements as values and takes what was read as values.
//!
//! - [`count`]: the follower count as the user types it.
//! - [`record`]: one creator.
//! - [`store`]: the values, statements and errors of the table.
//! - [`load`]: from rows to records.
//! - [`save`]: the save pass, step by step.
//! - [`roster`]: the records of a session and the messages that edit
//!   them.
//! - [`table`]: a model of what statements leave in the table.

pub mod count;
pub mod record;
pub mod store;
pub mod load;
pub mod save;
pub mod roster;
pub mod table;
