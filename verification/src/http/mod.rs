//! What is decided before a request goes out: URL checks, the query string,
//! and the headers and body that are sent.
pub mod client;
pub mod request_builder;
pub mod response;
