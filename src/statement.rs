//! Statement assemblers: SELECT, INSERT, UPDATE and DELETE.

pub mod delete;
pub mod insert;
pub mod select;
pub mod update;





