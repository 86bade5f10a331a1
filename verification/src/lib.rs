//! Scaffolding and maintenance of metadata for patch-module packages.
//!
//! The crate parses the semi-structured `module.prop` manifest format into a
//! typed configuration, validates module properties, emits the fixed template
//! files of a fresh project, and reconciles a persistent registry of project
//! identifiers against observations of the filesystem.

pub mod clock;
pub mod manifest;
pub mod num;
pub mod registry;
pub mod templates;
pub mod text;
pub mod upgrade;
pub mod validate;
