//! Decides, for each compiler invocation of a build, whether it produces one
//! of the package's final executables, and extends exactly those invocations
//! with extra arguments for the linker.

pub mod text;
pub mod invocation;
pub mod matching;
pub mod engine;
pub mod resolver;
pub mod plan;
pub mod command;

pub use engine::{append_linkargs, LinkArgsEngine};
pub use invocation::Invocation;
