//! Scaffolding for LaTeX note projects: scope-aware configuration
//! resolution and deterministic rewriting of editor, build and document
//! templates into a fresh project tree.

pub mod config;
pub mod error;
pub mod json;
pub mod project;
pub mod rewrite;
pub mod settings;
pub mod template;
pub mod text;
