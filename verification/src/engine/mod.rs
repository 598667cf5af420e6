//! The platform-agnostic validation engine: check definitions, command
//! splitting and the custom filters.
pub mod command;
pub mod pattern;
pub mod checks;
pub mod filters;
pub mod validate;
pub mod catalog;
