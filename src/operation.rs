//! Assembly steps. Each takes the skeleton under construction, adds what it
//! produces, and returns the indices of what it created, so that later steps
//! refer to them explicitly. Cells found on chain are handed in by the caller.

use vstd::prelude::*;
use vstd::bytes::spec_u64_to_le_bytes;
use crate::cell::{
    CellDep, CellDepModel, CellModel, Cell, Header, HeaderModel, ResolvedInput,
    Script, ScriptModel, Transaction, TransactionModel, with_cell_dep,
    with_header_dep, with_input, with_output,
};
use crate::certificate_type::{read_capacity, recorded_capacity};
use crate::config::{
    certificate_deployment_on, check_deployment_on, code_dep, dao_certificate_check_deployment,
    dao_certificate_deployment, script_of, AssembleError, ChainConfig, DeploymentModel,
};
use crate::encoding::{script_hash, script_hash_of};
use crate::protocol::{
    burn_link, calc_type_id, dob_content, dob_content_type, dob_content_type_bytes,
    make_burn_link, make_dob_content, type_id_of,
};
use crate::spore::{encode_spore, spore_data_bytes, SporeData, SporeDataModel};

verus! {

/// Data of a deposit cell when it is created.
pub open spec fn fresh_deposit_data() -> Seq<u8> {
    seq![0u8, 0u8, 0u8, 0u8, 0u8, 0u8, 0u8, 0u8]
}

/// The certificate cell: owned by `lock`, typed by `cert`, recording `capacity`.
/// Its own capacity is left at zero for the balancing step to raise to the
/// cell's occupied size.
pub open spec fn certificate_cell(lock: ScriptModel, cert: ScriptModel, capacity: u64) -> CellModel {
    CellModel {
        capacity: 0,
        lock,
        type_script: Some(cert),
        data: spec_u64_to_le_bytes(capacity),
    }
}

/// The deposit cell holding `capacity`, burn-linked to the certificate `cert`.
pub open spec fn deposit_cell(config: ChainConfig, cert: ScriptModel, capacity: u64) -> CellModel {
    CellModel {
        capacity,
        lock: burn_link(config.type_burn@.code_hash, script_hash_of(cert)),
        type_script: Some(script_of(config.dao@, Seq::empty())),
        data: fresh_deposit_data(),
    }
}

/// The certificate script that a deposit step creates in `tx`.
pub open spec fn new_certificate_script(d: DeploymentModel, tx: TransactionModel) -> ScriptModel {
    script_of(d, type_id_of(tx.inputs[0].input, tx.outputs.len() as u64))
}

/// The skeleton after a deposit step with deployment `d`.
pub open spec fn deposit_result(
    tx: TransactionModel,
    config: ChainConfig,
    d: DeploymentModel,
    depositer: ScriptModel,
    capacity: u64,
) -> TransactionModel {
    let cert = new_certificate_script(d, tx);
    let t1 = with_output(with_cell_dep(tx, code_dep(d)), certificate_cell(depositer, cert, capacity));
    with_output(with_cell_dep(t1, code_dep(config.dao@)), deposit_cell(config, cert, capacity))
}

/// Adds the certificate type's code to the skeleton.
pub struct AddDaoCertificateCelldep {}

impl AddDaoCertificateCelldep {
    pub fn run(self, tx: &mut Transaction, config: &ChainConfig) -> (r: Result<(), AssembleError>)
        ensures
            match certificate_deployment_on(config.deployments, config.network) {
                Some(d) => r is Ok && final(tx)@ == with_cell_dep(old(tx)@, code_dep(d)),
                None => r == Err::<(), AssembleError>(AssembleError::DeploymentNotFound)
                    && final(tx)@ == old(tx)@,
            },
    {
        let d = dao_certificate_deployment(&config.deployments, config.network)?;
        tx.add_cell_dep(d.cell_dep());
        Ok(())
    }
}

/// Adds the certificate-check lock's code to the skeleton.
pub struct AddDaoCertificateCheckCelldep {}

impl AddDaoCertificateCheckCelldep {
    pub fn run(self, tx: &mut Transaction, config: &ChainConfig) -> (r: Result<(), AssembleError>)
        ensures
            match check_deployment_on(config.deployments, config.network) {
                Some(d) => r is Ok && final(tx)@ == with_cell_dep(old(tx)@, code_dep(d)),
                None => r == Err::<(), AssembleError>(AssembleError::DeploymentNotFound)
                    && final(tx)@ == old(tx)@,
            },
    {
        let d = dao_certificate_check_deployment(&config.deployments, config.network)?;
        tx.add_cell_dep(d.cell_dep());
        Ok(())
    }
}

/// Indices of the outputs a deposit step creates.
pub struct DepositOutputs {
    pub certificate_index: usize,
    pub deposit_index: usize,
}

/// Adds a certificate cell and the deposit cell it proves, the deposit
/// burn-linked to the certificate.
pub struct AddDaoCertificateOutputCellWithDaoDeposit {
    /// Lock of the depositer, who receives the certificate.
    pub depositer: Script,
    /// Capacity to deposit.
    pub dao_capacity: u64,
}

impl AddDaoCertificateOutputCellWithDaoDeposit {
    pub fn run(self, tx: &mut Transaction, config: &ChainConfig) -> (r: Result<
        DepositOutputs,
        AssembleError,
    >)
        requires
            old(tx)@.outputs.len() + 2 < usize::MAX,
        ensures
            match certificate_deployment_on(config.deployments, config.network) {
                None => r == Err::<DepositOutputs, AssembleError>(AssembleError::DeploymentNotFound)
                    && final(tx)@ == old(tx)@,
                Some(d) => if old(tx)@.inputs.len() == 0 {
                    r == Err::<DepositOutputs, AssembleError>(AssembleError::CellNotFound)
                        && final(tx)@ == old(tx)@
                } else {
                    r matches Ok(o) && o.certificate_index == old(tx)@.outputs.len()
                        && o.deposit_index == old(tx)@.outputs.len() + 1 && final(tx)@
                        == deposit_result(old(tx)@, *config, d, self.depositer@, self.dao_capacity)
                },
            },
    {
        let d = dao_certificate_deployment(&config.deployments, config.network)?;
        if tx.inputs.len() == 0 {
            return Err(AssembleError::CellNotFound);
        }
        let type_id = calc_type_id(&tx.inputs[0].input, tx.outputs.len() as u64);
        let cert = d.script(type_id);
        assert(cert@ == new_certificate_script(d@, tx@));
        let cert_hash = script_hash(&cert);
        tx.add_cell_dep(d.cell_dep());
        let certificate_index = tx.push_output(
            Cell {
                capacity: 0,
                lock: self.depositer,
                type_script: Some(cert),
                data: vstd::bytes::u64_to_le_bytes(self.dao_capacity),
            },
        );
        tx.add_cell_dep(config.dao.cell_dep());
        let data: Vec<u8> = vec![0u8, 0u8, 0u8, 0u8, 0u8, 0u8, 0u8, 0u8];
        assert(data@ =~= fresh_deposit_data());
        let deposit_index = tx.push_output(
            Cell {
                capacity: self.dao_capacity,
                lock: make_burn_link(&config.type_burn.code_hash, cert_hash),
                type_script: Some(config.dao.script(Vec::new())),
                data,
            },
        );
        Ok(DepositOutputs { certificate_index, deposit_index })
    }
}

/// Whether `c` is an unchained-or-chained certificate cell owned by `owner`
/// under deployment `d`.
pub open spec fn is_certificate_owned_by(c: CellModel, owner: ScriptModel, d: DeploymentModel) -> bool {
    &&& c.lock == owner
    &&& c.type_script is Some
    &&& c.type_script->0.code_hash == d.code_hash
    &&& c.type_script->0.hash_type == d.hash_type
}

/// Consumes the depositer's certificate cell, found on chain, and attaches
/// the header of the block that created it.
pub struct AddDaoCertificateInputCell {
    /// Lock of the depositer, who owns the certificate.
    pub depositer: Script,
}

impl AddDaoCertificateInputCell {
    pub fn run(
        self,
        tx: &mut Transaction,
        config: &ChainConfig,
        found: ResolvedInput,
        header: Header,
    ) -> (r: Result<usize, AssembleError>)
        requires
            old(tx)@.inputs.len() + 1 < usize::MAX,
        ensures
            match certificate_deployment_on(config.deployments, config.network) {
                None => r == Err::<usize, AssembleError>(AssembleError::DeploymentNotFound)
                    && final(tx)@ == old(tx)@,
                Some(d) => if !is_certificate_owned_by(found@.cell, self.depositer@, d) {
                    r == Err::<usize, AssembleError>(AssembleError::CellNotFound) && final(tx)@
                        == old(tx)@
                } else {
                    r == Ok::<usize, AssembleError>(old(tx)@.inputs.len() as usize) && final(tx)@
                        == with_header_dep(
                        with_input(with_cell_dep(old(tx)@, code_dep(d)), found@),
                        header@,
                    )
                },
            },
    {
        let d = dao_certificate_deployment(&config.deployments, config.network)?;
        let owned = match &found.cell.type_script {
            Some(t) => found.cell.lock.same_as(&self.depositer) && crate::cell::bytes_eq(
                t.code_hash.as_slice(),
                d.code_hash.as_slice(),
            ) && t.hash_type == d.hash_type,
            None => false,
        };
        if !owned {
            return Err(AssembleError::CellNotFound);
        }
        tx.add_cell_dep(d.cell_dep());
        let i = tx.push_input(found);
        tx.add_header_dep(header);
        Ok(i)
    }
}

/// Indices of the outputs a mint step creates.
pub struct MintOutputs {
    pub spore_index: usize,
    pub certificate_index: usize,
}

/// The collectible's data for a certificate recording `capacity` whose
/// deposit began in block `block_number`.
pub open spec fn dob_data(capacity: u64, block_number: u64, cluster_id: Seq<u8>) -> SporeDataModel {
    SporeDataModel {
        content_type: dob_content_type(),
        content: dob_content(capacity, block_number),
        cluster_id: Some(cluster_id),
    }
}

/// The skeleton after a mint step re-chains the certificate consumed by
/// input `index` to a new collectible.
pub open spec fn mint_result(
    tx: TransactionModel,
    config: ChainConfig,
    index: int,
    cluster_id: Seq<u8>,
    header: HeaderModel,
    cluster_dep: CellDepModel,
) -> TransactionModel {
    let cell = tx.inputs[index].cell;
    let capacity = recorded_capacity(cell.data)->0;
    let spore = script_of(config.spore@, type_id_of(tx.inputs[0].input, tx.outputs.len() as u64));
    let spore_cell = CellModel {
        capacity: 0,
        lock: cell.lock,
        type_script: Some(spore),
        data: spore_data_bytes(dob_data(capacity, header.number, cluster_id)),
    };
    let cert_cell = CellModel {
        capacity: 0,
        lock: burn_link(config.type_burn@.code_hash, script_hash_of(spore)),
        type_script: cell.type_script,
        data: spec_u64_to_le_bytes(capacity),
    };
    let t1 = with_cell_dep(with_cell_dep(tx, code_dep(config.spore@)), cluster_dep);
    with_header_dep(with_output(with_output(t1, spore_cell), cert_cell), header)
}

/// Creates a collectible recording the deposit that the certificate consumed
/// by input `dao_certificate_input_index` proves, and re-creates that
/// certificate burn-linked to the collectible.
pub struct AddDaoCertificateOutputCellWithSporeTypeBurn {
    pub dao_certificate_input_index: usize,
    /// Cluster the collectible joins.
    pub cluster_id: Vec<u8>,
}

impl AddDaoCertificateOutputCellWithSporeTypeBurn {
    /// `header` is the header of the block the deposit began in, and
    /// `cluster_dep` the dependency on the cluster's cell.
    pub fn run(
        self,
        tx: &mut Transaction,
        config: &ChainConfig,
        header: Header,
        cluster_dep: CellDep,
    ) -> (r: Result<MintOutputs, AssembleError>)
        requires
            old(tx)@.outputs.len() + 2 < usize::MAX,
        ensures
            ({
                let i = self.dao_certificate_input_index as int;
                if i >= old(tx)@.inputs.len() {
                    r == Err::<MintOutputs, AssembleError>(AssembleError::CellNotFound)
                        && final(tx)@ == old(tx)@
                } else if recorded_capacity(old(tx)@.inputs[i].cell.data) is None
                    || old(tx)@.inputs[i].cell.type_script is None {
                    r == Err::<MintOutputs, AssembleError>(AssembleError::CellDataMalformed)
                        && final(tx)@ == old(tx)@
                } else {
                    r matches Ok(o) && o.spore_index == old(tx)@.outputs.len()
                        && o.certificate_index == old(tx)@.outputs.len() + 1 && final(tx)@
                        == mint_result(
                        old(tx)@,
                        *config,
                        i,
                        self.cluster_id@,
                        header@,
                        cluster_dep@,
                    )
                }
            }),
    {
        let i = self.dao_certificate_input_index;
        if i >= tx.inputs.len() {
            return Err(AssembleError::CellNotFound);
        }
        let capacity = match read_capacity(&tx.inputs[i].cell.data) {
            Some(c) => c,
            None => return Err(AssembleError::CellDataMalformed),
        };
        let cert_type = match &tx.inputs[i].cell.type_script {
            Some(t) => t.copy(),
            None => return Err(AssembleError::CellDataMalformed),
        };
        let owner = tx.inputs[i].cell.lock.copy();
        let spore_id = calc_type_id(&tx.inputs[0].input, tx.outputs.len() as u64);
        let spore = config.spore.script(spore_id);
        let spore_hash = script_hash(&spore);
        let data = SporeData {
            content_type: dob_content_type_bytes(),
            content: make_dob_content(capacity, header.number),
            cluster_id: Some(self.cluster_id),
        };
        let spore_data = encode_spore(&data);
        tx.add_cell_dep(config.spore.cell_dep());
        tx.add_cell_dep(cluster_dep);
        let spore_index = tx.push_output(
            Cell { capacity: 0, lock: owner, type_script: Some(spore), data: spore_data },
        );
        let certificate_index = tx.push_output(
            Cell {
                capacity: 0,
                lock: make_burn_link(&config.type_burn.code_hash, spore_hash),
                type_script: Some(cert_type),
                data: vstd::bytes::u64_to_le_bytes(capacity),
            },
        );
        tx.add_header_dep(header);
        Ok(MintOutputs { spore_index, certificate_index })
    }
}

} // verus!
