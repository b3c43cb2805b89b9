//! Provisioning and lifecycle logic for a compute-worker agent: host facts,
//! container-runtime installation, agent configuration, service registration
//! and teardown. Every side effect is described as a [`plan::Step`] that the
//! embedding application performs; the decisions around those effects are
//! verified here.

pub mod plan;
pub mod platform;
pub mod installer;
pub mod config;
pub mod service;
pub mod provision;
pub mod cleanup;
pub mod host;
pub mod connection;
