pub mod decimal;
pub mod error;
pub mod laws;
pub mod library;
pub mod messages;
pub mod native;
pub mod registry;
pub mod session;
