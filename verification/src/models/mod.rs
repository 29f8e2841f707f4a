//! Domain models.

pub mod ids;
pub mod feature;
pub mod history;
pub mod memory;
pub mod portfolio;
pub mod project;
pub mod version;
pub mod test_proof;
pub mod remote;
pub mod template;
pub mod user;
