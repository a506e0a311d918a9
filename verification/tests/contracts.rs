use astinel_backend::contracts::deploy::{
    network_passphrase_or_default, read_failure_text, unknown_contract_text, upload_simulation, upload_transaction,
    ContractDeployer, DeployConfig,
};
use astinel_backend::contracts::rpc::{ledger_sequence, rpc_outcome, transaction_hash, RpcError, SorobanRpcClient};
use astinel_backend::contracts::types::supported_contracts;
use astinel_backend::digest::sha256_hex;

fn config() -> DeployConfig {
    DeployConfig {
        rpc_url: "http://rpc".to_string(),
        network_passphrase: "Test SDF Network ; September 2015".to_string(),
        source_account: "GSOURCE".to_string(),
        secret_key: "S".to_string(),
    }
}

#[test]
fn supported_contract_table() {
    let all = supported_contracts();
    assert_eq!(all.len(), 5);
    assert_eq!(all[0].name, "astinel-access-control");
    assert_eq!(all[4].wasm_file, "astinel_stellar_asset.wasm");
    let deployer = ContractDeployer::new(config());
    assert_eq!(deployer.supported_contracts().len(), 5);
    assert_eq!(deployer.config().source_account, "GSOURCE");
    assert_eq!(deployer.rpc().rpc_url(), "http://rpc");
}

#[test]
fn wasm_paths() {
    assert_eq!(
        ContractDeployer::resolve_wasm_path("astinel-payable", None).as_deref(),
        Some("../Astinel-contracts/target/wasm32-unknown-unknown/debug/astinel_payable.wasm")
    );
    assert_eq!(
        ContractDeployer::resolve_wasm_path("astinel-upgradeable", Some("/c")).as_deref(),
        Some("/c/target/wasm32-unknown-unknown/debug/astinel_upgradeable.wasm")
    );
    assert_eq!(ContractDeployer::resolve_wasm_path("nope", None), None);
}

#[test]
fn deployment_identifiers() {
    let deployer = ContractDeployer::new(config());
    let r = deployer.deployment("astinel-payable", b"wasm", "tx1".to_string());
    assert_eq!(r.wasm_hash, sha256_hex("wasm"));
    assert_eq!(r.contract_id, sha256_hex(&format!("GSOURCE{}", r.wasm_hash)));
    assert_eq!(r.tx_hash, "tx1");
    assert_eq!(r.contract_name, "astinel-payable");
}

#[test]
fn deployment_texts() {
    assert_eq!(unknown_contract_text("x"), "unknown contract: x");
    assert_eq!(read_failure_text("/p", "gone"), "failed to read wasm /p: gone");
    assert_eq!(upload_simulation("c"), "upload_wasm_c");
    assert_eq!(upload_transaction("c"), "upload_wasm_tx_c");
    assert_eq!(network_passphrase_or_default(None), "Test SDF Network ; September 2015");
}

#[test]
fn rpc_replies() {
    let e = RpcError { code: -32601, message: "Method not found".to_string() };
    assert_eq!(rpc_outcome::<String>(Some(e), None).unwrap_err(), "RPC error -32601: Method not found");
    assert_eq!(rpc_outcome::<String>(None, None).unwrap_err(), "RPC returned empty result");
    assert_eq!(rpc_outcome(None, Some("{}".to_string())).unwrap(), "{}");
    assert_eq!(ledger_sequence(Some(7)).unwrap(), 7);
    assert_eq!(ledger_sequence(Some((1u64 << 32) + 5)).unwrap(), 5);
    assert_eq!(ledger_sequence(None).unwrap_err(), "missing sequence");
    assert_eq!(transaction_hash(None).unwrap_err(), "missing tx hash");
    assert_eq!(SorobanRpcClient::with_url(None).rpc_url(), "https://soroban-testnet.stellar.org");
}
