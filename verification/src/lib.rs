//! Verified domain logic of the MultiCloud control plane.
pub mod kernel;
pub mod text;
pub mod ticket;
pub mod authorization;
pub mod json;
pub mod digest;
pub mod identity;
pub mod organization;
pub mod operation;
pub mod api;
pub mod provider;
pub mod resource;
pub mod audit;
pub mod provider_operations;
pub mod reliable_events;
pub mod worker;
pub mod admin;
pub mod configuration;
pub mod web;
pub mod cli;
