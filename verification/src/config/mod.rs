//! Where the client keeps its files.
pub mod settings;

pub use settings::Settings;
