//! The Soroban JSON-RPC client: where it sends requests, and how it reads the
//! replies. Sending and decoding JSON are the caller's work.
use vstd::prelude::*;
use vstd::string::StringExecFns;
use crate::http::new_http_client;
use crate::text::{i64_to_decimal, signed_decimal_text};

verus! {

/// A client of one Soroban RPC endpoint.
#[derive(Debug)]
pub struct SorobanRpcClient {
    http_client: reqwest::Client,
    rpc_url: String,
}

/// An error object of a JSON-RPC reply.
#[derive(Debug, Clone)]
pub struct RpcError {
    pub code: i32,
    pub message: String,
}

/// The result of `getContractData`.
#[derive(Debug, Clone)]
pub struct GetContractDataResult {
    pub xdr: String,
}

/// The endpoint used when none is configured.
pub open spec fn default_rpc_url() -> Seq<char> {
    "https://soroban-testnet.stellar.org"@
}

impl SorobanRpcClient {
    /// The endpoint of the client.
    pub closed spec fn spec_url(&self) -> Seq<char> {
        self.rpc_url@
    }

    /// A client of `rpc_url`.
    pub fn new(rpc_url: String) -> (r: SorobanRpcClient)
        ensures
            r.spec_url() == rpc_url@,
    {
        SorobanRpcClient { http_client: new_http_client(), rpc_url }
    }

    /// A client of the configured endpoint, else of the public test network.
    pub fn with_url(configured: Option<String>) -> (r: SorobanRpcClient)
        ensures
            r.spec_url() == (match configured { Some(u) => u@, None => default_rpc_url() }),
    {
        let url = match configured {
            Some(u) => u,
            None => String::from_str("https://soroban-testnet.stellar.org"),
        };
        SorobanRpcClient::new(url)
    }

    /// The endpoint of the client.
    pub fn rpc_url(&self) -> (r: &str)
        ensures
            r@ == self.spec_url(),
    {
        self.rpc_url.as_str()
    }

    /// The HTTP client of the client.
    pub closed spec fn spec_http(&self) -> reqwest::Client {
        self.http_client
    }

    /// The HTTP client requests go through: the client's own.
    pub fn http(&self) -> (r: &reqwest::Client)
        ensures
            *r == self.spec_http(),
    {
        &self.http_client
    }
}

/// The message of an error object of a reply.
pub open spec fn rpc_error_text(e: RpcError) -> Seq<char> {
    "RPC error "@ + signed_decimal_text(e.code as int) + ": "@ + e.message@
}

/// What a reply gives: its error object's message if it has one, else its
/// result, else the message that the result was empty.
pub fn rpc_outcome<T>(error: Option<RpcError>, result: Option<T>) -> (r: Result<T, String>)
    ensures
        match error {
            Some(e) => r matches Err(m) && m@ == rpc_error_text(e),
            None => match result {
                Some(v) => r matches Ok(t) && t == v,
                None => r matches Err(m) && m@ == "RPC returned empty result"@,
            },
        },
{
    match error {
        Some(e) => {
            let mut m = String::from_str("RPC error ");
            let c = i64_to_decimal(e.code as i64);
            m.append(c.as_str());
            m.append(": ");
            m.append(e.message.as_str());
            Err(m)
        },
        None => match result {
            Some(v) => Ok(v),
            None => Err(String::from_str("RPC returned empty result")),
        },
    }
}

/// The ledger sequence of a `getLatestLedger` result: its `sequence` field,
/// truncated to 32 bits, or the message that it is missing.
pub fn ledger_sequence(sequence: Option<u64>) -> (r: Result<u32, String>)
    ensures
        match sequence {
            Some(v) => r == Ok::<u32, String>(v as u32),
            None => r matches Err(m) && m@ == "missing sequence"@,
        },
{
    match sequence {
        Some(v) => Ok(v as u32),
        None => Err(String::from_str("missing sequence")),
    }
}

/// The hash of a `sendTransaction` result, or the message that it is missing.
pub fn transaction_hash(hash: Option<String>) -> (r: Result<String, String>)
    ensures
        match hash {
            Some(h) => r matches Ok(t) && t@ == h@,
            None => r matches Err(m) && m@ == "missing tx hash"@,
        },
{
    match hash {
        Some(h) => Ok(h),
        None => Err(String::from_str("missing tx hash")),
    }
}

} // verus!
