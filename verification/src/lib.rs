//! Static-analysis core types, configuration resolution and access rules of
//! a scanner for Soroban smart contracts, with their contracts proved by Verus.

pub mod text;
pub mod tokens;
pub mod digest;
pub mod http;
pub mod analysis;
pub mod config;
pub mod cli;
pub mod auth;
pub mod api;
pub mod contracts;
pub mod ai;
pub mod cache;
