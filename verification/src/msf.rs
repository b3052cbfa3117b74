//! The methods of the service, by family.
pub mod auth;
pub mod console;
pub mod jobs;
pub mod modules;
pub mod sessions;
