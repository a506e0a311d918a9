//! Soroban contracts: the contracts the platform can deploy, the JSON-RPC
//! client's rules, and the results of a deployment.
pub mod types;
pub mod rpc;
pub mod deploy;
