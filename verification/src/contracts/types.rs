//! The contracts the platform can deploy.
use vstd::prelude::*;

verus! {

/// A deployable contract: its name, what it does, and its compiled file.
#[derive(Debug, Clone)]
pub struct ContractInfo {
    pub name: &'static str,
    pub description: &'static str,
    pub wasm_file: &'static str,
}

/// The name, description and file of a contract.
pub open spec fn info_view(c: ContractInfo) -> (Seq<char>, Seq<char>, Seq<char>) {
    (c.name@, c.description@, c.wasm_file@)
}

/// The supported contracts, in order.
pub open spec fn supported_table() -> Seq<(Seq<char>, Seq<char>, Seq<char>)> {
    seq![
        ("astinel-access-control"@, "Access control with admin, operators, and pausing"@, "astinel_access_control.wasm"@),
        ("astinel-payable"@, "ERC-20-like token with allowance and transfer_from"@, "astinel_payable.wasm"@),
        ("astinel-ttl-management"@, "Persistent storage with configurable time-to-live"@, "astinel_ttl_management.wasm"@),
        ("astinel-upgradeable"@, "Contract upgrade with wasm hash and versioning"@, "astinel_upgradeable.wasm"@),
        ("astinel-stellar-asset"@, "Stellar Asset Frontend (SAFE) with mint, burn, transfer, approve"@, "astinel_stellar_asset.wasm"@),
    ]
}

/// The views of a list of contracts.
pub open spec fn infos_view(v: Seq<ContractInfo>) -> Seq<(Seq<char>, Seq<char>, Seq<char>)> {
    Seq::new(v.len(), |i: int| info_view(v[i]))
}

/// The contracts the platform can deploy.
pub fn supported_contracts() -> (r: Vec<ContractInfo>)
    ensures
        infos_view(r@) == supported_table(),
{
    let r = vec![
        ContractInfo {
            name: "astinel-access-control",
            description: "Access control with admin, operators, and pausing",
            wasm_file: "astinel_access_control.wasm",
        },
        ContractInfo {
            name: "astinel-payable",
            description: "ERC-20-like token with allowance and transfer_from",
            wasm_file: "astinel_payable.wasm",
        },
        ContractInfo {
            name: "astinel-ttl-management",
            description: "Persistent storage with configurable time-to-live",
            wasm_file: "astinel_ttl_management.wasm",
        },
        ContractInfo {
            name: "astinel-upgradeable",
            description: "Contract upgrade with wasm hash and versioning",
            wasm_file: "astinel_upgradeable.wasm",
        },
        ContractInfo {
            name: "astinel-stellar-asset",
            description: "Stellar Asset Frontend (SAFE) with mint, burn, transfer, approve",
            wasm_file: "astinel_stellar_asset.wasm",
        },
    ];
    proof {
        assert(infos_view(r@) =~= supported_table());
    }
    r
}

} // verus!
