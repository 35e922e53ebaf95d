//! The decisions of a desktop shell that hosts a web front-end in a native
//! window: which plugins it installs for which build, which host commands it
//! publishes, which log records reach a sink, and how its single boot path
//! runs from start to exit.

pub mod severity;
pub mod plugins;
pub mod commands;
pub mod boot;
