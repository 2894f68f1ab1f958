//! Generation of the launch and maintenance shell scripts that set up a
//! Proton compatibility environment for Windows mod-management tools.

pub mod laws;
pub mod paths;
pub mod registry;
pub mod scripts;
pub mod templates;
