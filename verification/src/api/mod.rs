//! The rules behind the HTTP API: its errors and their statuses, who a request
//! comes from, and the names and checks its handlers apply.
pub mod errors;
pub mod access;
pub mod slug;
pub mod accounts;
pub mod handlers;
pub mod dto;
pub mod laws;
