//! Diagram-type rules and the grouping step of diagram layout.

pub mod bdd;
pub mod ibd;
pub mod layout;
