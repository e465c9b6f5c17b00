// Shape predicates for the four statement kinds.

pub mod common;
pub mod delete;
pub mod insert;
pub mod select;
pub mod update;
