//! The GitHub backend: issues, labels and milestones as the data layer.

pub mod client;
pub mod labels;
pub mod parser;
pub mod store;
