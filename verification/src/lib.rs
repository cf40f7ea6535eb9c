//! apix: a terminal HTTP client. This library holds its logic with
//! contracts proved by Verus: requests and how they are sent, responses,
//! history, collections and environments, what each key does to the
//! interface's state, what each part of the screen shows, and what a
//! self-update decides.
pub mod text;
pub mod errors;
pub mod models;
pub mod http;
pub mod config;
pub mod tui;
pub mod app;
pub mod laws;
pub mod update;
