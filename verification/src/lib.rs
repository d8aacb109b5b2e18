pub mod connection;
pub mod ids;
pub mod random;
pub mod store;
pub mod features;
pub mod claims;
pub mod users;
pub mod auth;
pub mod assets;
pub mod config;
