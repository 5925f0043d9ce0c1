//! Scaffolds new project directories from a fixed catalog of starter templates.
pub mod path_safety;
pub mod plan;
pub mod templates;
pub mod registry;
pub mod generator;
