//! Stellar Protocol Canary: the compatibility model, project detection,
//! report rendering and the decision logic of the surface runners.

pub mod text;
pub mod model;
pub mod errors;
pub mod config;
pub mod cache;
pub mod project;
pub mod report;
pub mod markdown;
pub mod terminal;
pub mod json_report;
pub mod rpc_client;
pub mod json_value;
pub mod rpc_runner;
pub mod xdr;
pub mod execution;
pub mod commands;
pub mod soroban;
pub mod policy;
pub mod plan;
