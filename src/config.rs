//! Where the protocol's contracts are deployed, per network: an explicit
//! table built once and passed to every assembly step.

use vstd::prelude::*;
use crate::cell::{copy_bytes, CellDep, CellDepModel, OutPoint, OutPointModel, Script, ScriptModel, DEP_TYPE_CODE};

verus! {

/// The networks an assembler can target.
#[derive(Debug, Clone, Copy, PartialEq, Eq, Structural)]
pub enum Network {
    Mainnet,
    Testnet,
    /// A simulated chain, where placeholder references stand for deployments.
    Fake,
}

/// Where a contract's code lives, and the code hash that scripts use to name it.
pub struct DeploymentRecord {
    pub tx_hash: Vec<u8>,
    pub out_index: u32,
    pub code_hash: Vec<u8>,
    pub hash_type: u8,
}

pub ghost struct DeploymentModel {
    pub tx_hash: Seq<u8>,
    pub out_index: u32,
    pub code_hash: Seq<u8>,
    pub hash_type: u8,
}

impl View for DeploymentRecord {
    type V = DeploymentModel;

    open spec fn view(&self) -> DeploymentModel {
        DeploymentModel {
            tx_hash: self.tx_hash@,
            out_index: self.out_index,
            code_hash: self.code_hash@,
            hash_type: self.hash_type,
        }
    }
}

/// The cell dependency that brings a deployed contract's code.
pub open spec fn code_dep(d: DeploymentModel) -> CellDepModel {
    CellDepModel {
        out_point: OutPointModel { tx_hash: d.tx_hash, index: d.out_index },
        dep_type: DEP_TYPE_CODE,
    }
}

/// A script running a deployed contract with the given arguments.
pub open spec fn script_of(d: DeploymentModel, args: Seq<u8>) -> ScriptModel {
    ScriptModel { code_hash: d.code_hash, hash_type: d.hash_type, args }
}

impl DeploymentRecord {
    pub fn copy(&self) -> (r: DeploymentRecord)
        ensures
            r@ == self@,
    {
        DeploymentRecord {
            tx_hash: copy_bytes(&self.tx_hash),
            out_index: self.out_index,
            code_hash: copy_bytes(&self.code_hash),
            hash_type: self.hash_type,
        }
    }

    /// The cell dependency that brings this contract's code.
    pub fn cell_dep(&self) -> (r: CellDep)
        ensures
            r@ == code_dep(self@),
    {
        CellDep {
            out_point: OutPoint { tx_hash: copy_bytes(&self.tx_hash), index: self.out_index },
            dep_type: DEP_TYPE_CODE,
        }
    }

    /// A script running this contract with the given arguments.
    pub fn script(&self, args: Vec<u8>) -> (r: Script)
        ensures
            r@ == script_of(self@, args@),
    {
        Script { code_hash: copy_bytes(&self.code_hash), hash_type: self.hash_type, args }
    }
}

/// Deployments of the certificate type and of the certificate-check lock.
pub struct DeploymentTable {
    pub mainnet_certificate: Option<DeploymentRecord>,
    pub testnet_certificate: Option<DeploymentRecord>,
    pub mainnet_check: Option<DeploymentRecord>,
    pub testnet_check: Option<DeploymentRecord>,
    /// Placeholder used on a simulated chain.
    pub fake_certificate: DeploymentRecord,
    /// Placeholder used on a simulated chain.
    pub fake_check: DeploymentRecord,
}

pub open spec fn opt_deployment_view(o: Option<DeploymentRecord>) -> Option<DeploymentModel> {
    match o {
        Some(d) => Some(d@),
        None => None,
    }
}

/// The certificate type's deployment on `network`, if it has one.
pub open spec fn certificate_deployment_on(t: DeploymentTable, network: Network) -> Option<
    DeploymentModel,
> {
    match network {
        Network::Mainnet => opt_deployment_view(t.mainnet_certificate),
        Network::Testnet => opt_deployment_view(t.testnet_certificate),
        Network::Fake => Some(t.fake_certificate@),
    }
}

/// The certificate-check lock's deployment on `network`, if it has one.
pub open spec fn check_deployment_on(t: DeploymentTable, network: Network) -> Option<
    DeploymentModel,
> {
    match network {
        Network::Mainnet => opt_deployment_view(t.mainnet_check),
        Network::Testnet => opt_deployment_view(t.testnet_check),
        Network::Fake => Some(t.fake_check@),
    }
}

/// Why assembling a transaction failed.
#[derive(Debug, Clone, Copy, PartialEq, Eq, Structural)]
pub enum AssembleError {
    /// The network has no deployment of a contract the step needs.
    DeploymentNotFound,
    /// A cell the step needs is missing or is not the expected one.
    CellNotFound,
    /// A cell's data does not have the expected layout.
    CellDataMalformed,
}

fn copy_opt_deployment(o: &Option<DeploymentRecord>) -> (r: Option<DeploymentRecord>)
    ensures
        opt_deployment_view(r) == opt_deployment_view(*o),
{
    match o {
        Some(d) => Some(d.copy()),
        None => None,
    }
}

/// The certificate type's deployment on `network`.
pub fn dao_certificate_deployment(table: &DeploymentTable, network: Network) -> (r: Result<
    DeploymentRecord,
    AssembleError,
>)
    ensures
        match certificate_deployment_on(*table, network) {
            Some(d) => r matches Ok(x) && x@ == d,
            None => r == Err::<DeploymentRecord, AssembleError>(AssembleError::DeploymentNotFound),
        },
{
    let found = match network {
        Network::Mainnet => copy_opt_deployment(&table.mainnet_certificate),
        Network::Testnet => copy_opt_deployment(&table.testnet_certificate),
        Network::Fake => Some(table.fake_certificate.copy()),
    };
    match found {
        Some(d) => Ok(d),
        None => Err(AssembleError::DeploymentNotFound),
    }
}

/// The certificate-check lock's deployment on `network`.
pub fn dao_certificate_check_deployment(table: &DeploymentTable, network: Network) -> (r: Result<
    DeploymentRecord,
    AssembleError,
>)
    ensures
        match check_deployment_on(*table, network) {
            Some(d) => r matches Ok(x) && x@ == d,
            None => r == Err::<DeploymentRecord, AssembleError>(AssembleError::DeploymentNotFound),
        },
{
    let found = match network {
        Network::Mainnet => copy_opt_deployment(&table.mainnet_check),
        Network::Testnet => copy_opt_deployment(&table.testnet_check),
        Network::Fake => Some(table.fake_check.copy()),
    };
    match found {
        Some(d) => Ok(d),
        None => Err(AssembleError::DeploymentNotFound),
    }
}

/// Everything an assembly step needs to know about the chain it targets:
/// the network, this protocol's deployments, and those of the outside
/// contracts it composes with.
pub struct ChainConfig {
    pub network: Network,
    pub deployments: DeploymentTable,
    /// The yield-bearing deposit's type contract.
    pub dao: DeploymentRecord,
    /// The burn-link lock contract.
    pub type_burn: DeploymentRecord,
    /// The collectible's type contract.
    pub spore: DeploymentRecord,
    /// The lock-proxy contract of authorisation cells.
    pub lock_proxy: DeploymentRecord,
}

} // verus!
