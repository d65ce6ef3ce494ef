//! The stages that turn a run request into a booted VM: configuration,
//! agent, image, network, attestation policy, and the request and result
//! records passed between them.
pub mod agent;
pub mod boot;
pub mod config;
pub mod image;
pub mod network;
pub mod policy;
pub mod types;
pub mod failing;
pub mod mocks;
pub mod state;
pub mod lifecycle;
pub mod storage;
