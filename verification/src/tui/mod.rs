//! The configuration editor: key handling, widgets' decisions, the
//! settings preview diff and the dialogs' state machines.
pub mod keys;
pub mod preview;
pub mod widgets;
pub mod check_form;
pub mod badges;
pub mod check_store;
pub mod draft;
pub mod style;
pub mod validate;
pub mod custom_check;
pub mod tabs;
pub mod app_state;
pub mod env_vars;
