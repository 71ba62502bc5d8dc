pub mod aggregate;
pub mod cli;
pub mod config;
pub mod display;
pub mod domain;
pub mod github;
pub mod registration;
pub mod registry;
pub mod server;
pub mod session;
pub mod text;
