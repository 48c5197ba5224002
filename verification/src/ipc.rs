//! Moving funds between a subnet and its parent.

pub mod manager;
pub mod subnet;
