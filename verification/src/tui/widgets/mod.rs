//! Reusable editor widgets: their state and what a key press does to it.
//! Drawing them is left to the terminal front end.
pub mod multi_select;
pub mod override_field;
pub mod picker;
pub mod radio;
pub mod regex_input;
pub mod stepper;
pub mod text_input;
pub mod toggle;
