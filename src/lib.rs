//! A linter for compiled Java class files: decodes the class-file layout,
//! resolves constant-pool references, parses method descriptors and applies
//! a closed set of configurable method-level style rules.

mod text;

pub mod errors;
pub mod classfile;
pub mod pool;
pub mod descriptor;
pub mod names;
pub mod rule;
pub mod checks;
pub mod config;
pub mod lint;
pub mod report;
pub mod laws;
