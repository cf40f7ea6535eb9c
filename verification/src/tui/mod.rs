//! The terminal interface's state and how keys change it.
pub mod state;
pub mod editing;
pub mod keys;
pub mod edit_keys;
pub mod inputs;
pub mod nav_keys;
pub mod drawer_keys;
pub mod events;
pub mod view;
pub mod screen;
pub mod response_view;
pub mod drawer_view;
