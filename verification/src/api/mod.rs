//! The request rules of the HTTP API: input validation and the decisions its handlers make.
pub mod audit;
pub mod auth;
pub mod authorization;
pub mod error;
pub mod invitations;
pub mod operations;
pub mod organizations;
pub mod platform;
pub mod providers;
pub mod resources;
pub mod tenant;
pub mod tickets;
