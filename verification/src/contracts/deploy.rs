//! Deploying a supported contract: where its compiled file lies, the
//! transactions that upload it, and the identifiers of the deployment. Reading
//! the file and talking to the RPC endpoint are the caller's work.
use vstd::prelude::*;
use vstd::string::{StringExecFns, StringSliceAdditionalSpecFns};
use crate::contracts::rpc::SorobanRpcClient;
use crate::contracts::types::{infos_view, supported_contracts, supported_table, ContractInfo};
use crate::digest::{hex_encode, hex_text, sha256, sha256_of};
use crate::text::str_eq;

verus! {

/// Where and as whom contracts are deployed.
#[derive(Debug, Clone)]
pub struct DeployConfig {
    pub rpc_url: String,
    pub network_passphrase: String,
    pub source_account: String,
    pub secret_key: String,
}

/// What a deployment produced.
#[derive(Debug, Clone)]
pub struct DeployResult {
    pub contract_name: String,
    pub contract_id: String,
    pub wasm_hash: String,
    pub tx_hash: String,
}

/// Deploys the supported contracts through one RPC endpoint.
#[derive(Debug)]
pub struct ContractDeployer {
    rpc: SorobanRpcClient,
    config: DeployConfig,
}

/// The network passphrase used when none is configured.
pub open spec fn default_passphrase() -> Seq<char> {
    "Test SDF Network ; September 2015"@
}

/// The configured network passphrase, else that of the public test network.
pub fn network_passphrase_or_default(configured: Option<String>) -> (r: String)
    ensures
        r@ == (match configured { Some(p) => p@, None => default_passphrase() }),
{
    match configured {
        Some(p) => p,
        None => String::from_str("Test SDF Network ; September 2015"),
    }
}

/// The directory of the compiled contracts used when none is configured.
pub open spec fn default_contracts_dir() -> Seq<char> {
    "../Astinel-contracts"@
}

/// The compiled file of a supported contract, under `dir`.
pub open spec fn wasm_path_in(dir: Seq<char>, wasm_file: Seq<char>) -> Seq<char> {
    dir + "/target/wasm32-unknown-unknown/debug/"@ + wasm_file
}

/// The position of the first supported contract called `name`.
pub open spec fn is_contract_at(name: Seq<char>, i: int) -> bool {
    &&& 0 <= i < supported_table().len()
    &&& supported_table()[i].0 == name
    &&& forall|j: int| 0 <= j < i ==> supported_table()[j].0 != name
}

/// The hexadecimal SHA-256 digest of a compiled contract.
pub open spec fn wasm_hash_of(wasm: Seq<u8>) -> Seq<char> {
    hex_text(sha256_of(wasm))
}

/// The id of a contract deployed by `source` from code with hash `wasm_hash`:
/// the hexadecimal SHA-256 digest of the account's bytes followed by the hash's.
pub open spec fn contract_id_of(source: Seq<u8>, wasm_hash: Seq<u8>) -> Seq<char> {
    hex_text(sha256_of(source + wasm_hash))
}

/// The hexadecimal SHA-256 digest of some bytes.
fn blake2_hash(bytes: &[u8]) -> (r: String)
    ensures
        r@ == wasm_hash_of(bytes@),
{
    let d = sha256(bytes);
    hex_encode(&d)
}

/// The id of a contract deployed by `source` from code with hash `wasm_hash`.
fn generate_contract_id(source: &str, wasm_hash: &str) -> (r: String)
    ensures
        r@ == contract_id_of(source.spec_bytes(), wasm_hash.spec_bytes()),
{
    let a = source.as_bytes();
    let b = wasm_hash.as_bytes();
    let mut data: Vec<u8> = Vec::new();
    let mut i: usize = 0;
    while i < a.len()
        invariant
            i <= a@.len(),
            data@ == a@.subrange(0, i as int),
        decreases a.len() - i,
    {
        data.push(a[i]);
        proof {
            assert(a@.subrange(0, i as int).push(a@[i as int]) =~= a@.subrange(0, i + 1));
        }
        i = i + 1;
    }
    let mut j: usize = 0;
    while j < b.len()
        invariant
            j <= b@.len(),
            data@ == a@ + b@.subrange(0, j as int),
        decreases b.len() - j,
    {
        data.push(b[j]);
        proof {
            assert(a@ + b@.subrange(0, j as int).push(b@[j as int]) =~= a@ + b@.subrange(0, j + 1));
        }
        j = j + 1;
    }
    proof {
        assert(a@.subrange(0, a@.len() as int) =~= a@);
        assert(b@.subrange(0, b@.len() as int) =~= b@);
    }
    let d = sha256(data.as_slice());
    hex_encode(&d)
}

impl ContractDeployer {
    /// The configuration of the deployer.
    pub closed spec fn spec_config(&self) -> DeployConfig {
        self.config
    }

    /// The endpoint of the deployer's RPC client.
    pub closed spec fn spec_rpc_url(&self) -> Seq<char> {
        self.rpc.spec_url()
    }

    /// A deployer for `config`, with a client of its RPC endpoint.
    pub fn new(config: DeployConfig) -> (r: ContractDeployer)
        ensures
            r.spec_config() == config,
            r.spec_rpc_url() == config.rpc_url@,
    {
        let rpc = SorobanRpcClient::new(config.rpc_url.clone());
        ContractDeployer { rpc, config }
    }

    /// The configuration of the deployer.
    pub fn config(&self) -> (r: &DeployConfig)
        ensures
            *r == self.spec_config(),
    {
        &self.config
    }

    /// The client of the RPC endpoint.
    pub fn rpc(&self) -> (r: &SorobanRpcClient)
        ensures
            r.spec_url() == self.spec_rpc_url(),
    {
        &self.rpc
    }

    /// The contracts this deployer can deploy.
    pub fn supported_contracts(&self) -> (r: Vec<ContractInfo>)
        ensures
            infos_view(r@) == supported_table(),
    {
        supported_contracts()
    }

    /// Where the compiled file of the supported contract `contract_name` lies,
    /// under the configured contracts directory (else `../Astinel-contracts`);
    /// nothing for an unknown contract.
    pub fn resolve_wasm_path(contract_name: &str, contracts_dir: Option<&str>) -> (r: Option<String>)
        ensures
            match r {
                Some(p) => exists|i: int| is_contract_at(contract_name@, i) && p@ == wasm_path_in(
                    match contracts_dir { Some(d) => d@, None => default_contracts_dir() },
                    supported_table()[i].2,
                ),
                None => forall|i: int| 0 <= i < supported_table().len() ==> supported_table()[i].0 != contract_name@,
            },
    {
        let infos = supported_contracts();
        let mut i: usize = 0;
        while i < infos.len()
            invariant
                i <= infos@.len(),
                infos_view(infos@) == supported_table(),
                forall|j: int| 0 <= j < i ==> supported_table()[j].0 != contract_name@,
            decreases infos.len() - i,
        {
            let info = &infos[i];
            proof {
                assert(infos_view(infos@)[i as int] == supported_table()[i as int]);
            }
            if str_eq(info.name, contract_name) {
                let mut p = match contracts_dir {
                    Some(d) => String::from_str(d),
                    None => String::from_str("../Astinel-contracts"),
                };
                p.append("/target/wasm32-unknown-unknown/debug/");
                p.append(info.wasm_file);
                proof {
                    assert(is_contract_at(contract_name@, i as int));
                }
                return Some(p);
            }
            i = i + 1;
        }
        None
    }

    /// The result of deploying `contract_name` from the compiled code
    /// `wasm_bytes`, uploaded in the transaction `tx_hash`: the code's hash and
    /// the contract id derived from the source account and that hash.
    pub fn deployment(&self, contract_name: &str, wasm_bytes: &[u8], tx_hash: String) -> (r: DeployResult)
        ensures
            r.contract_name@ == contract_name@,
            r.wasm_hash@ == wasm_hash_of(wasm_bytes@),
            r.contract_id@ == contract_id_of(
                vstd::utf8::encode_utf8(self.spec_config().source_account@),
                vstd::utf8::encode_utf8(wasm_hash_of(wasm_bytes@)),
            ),
            r.tx_hash == tx_hash,
    {
        let hash = blake2_hash(wasm_bytes);
        let id = generate_contract_id(self.config.source_account.as_str(), hash.as_str());
        DeployResult { contract_name: String::from_str(contract_name), contract_id: id, wasm_hash: hash, tx_hash }
    }
}

/// The message for a contract that is not supported.
pub fn unknown_contract_text(contract_name: &str) -> (r: String)
    ensures
        r@ == "unknown contract: "@ + contract_name@,
{
    let mut r = String::from_str("unknown contract: ");
    r.append(contract_name);
    r
}

/// The message for a compiled file that could not be read.
pub fn read_failure_text(wasm_path: &str, error: &str) -> (r: String)
    ensures
        r@ == "failed to read wasm "@ + wasm_path@ + ": "@ + error@,
{
    let mut r = String::from_str("failed to read wasm ");
    r.append(wasm_path);
    r.append(": ");
    r.append(error);
    r
}

/// The transaction that simulates uploading a contract's code.
pub fn upload_simulation(contract_name: &str) -> (r: String)
    ensures
        r@ == "upload_wasm_"@ + contract_name@,
{
    let mut r = String::from_str("upload_wasm_");
    r.append(contract_name);
    r
}

/// The transaction that uploads a contract's code.
pub fn upload_transaction(contract_name: &str) -> (r: String)
    ensures
        r@ == "upload_wasm_tx_"@ + contract_name@,
{
    let mut r = String::from_str("upload_wasm_tx_");
    r.append(contract_name);
    r
}

} // verus!
