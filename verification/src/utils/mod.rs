//! Small shared types.

pub mod linelg;
