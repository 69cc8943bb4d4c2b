pub mod config;
pub mod dispatcher;
pub mod display;
pub mod errors;
pub mod events;
pub mod laws;
pub mod mirror;
pub mod process_manager;
pub mod pty;
pub mod registry;
pub mod session;
pub mod streaming;
pub mod text;
pub mod workspace;
