pub mod actions;
pub mod workflows;
