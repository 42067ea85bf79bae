//! Row-level operations over the statement builders: insert a row, update or delete
//! rows, and replace (insert or update) one row identified by key columns.

pub mod delete;
pub mod insert;
pub mod replace;
pub mod update;

pub use delete::delete_rows;
pub use insert::insert_row;
pub use replace::replace_row;
pub use update::update_rows;
