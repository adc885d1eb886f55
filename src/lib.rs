//! Pre-flight planning for mirrored drive backups: source validation
//! decisions, destination mapping, an error-tolerant directory walk, size
//! reporting and the decisions around the delegated copy tool.

pub mod error;
pub mod size;
pub mod path;
pub mod walk;
pub mod tree;
pub mod plan;
pub mod input;
