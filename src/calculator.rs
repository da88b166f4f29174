//! The three assembly pipelines, plus the one that prepares an authorisation
//! cell. Each runs its steps in order on one skeleton; what the steps must
//! find on chain is looked up beforehand by the caller and handed in.

use vstd::prelude::*;
use crate::cell::{
    copy_bytes, Cell, CellDep, CellDepModel, CellModel, Header, HeaderModel, ResolvedInput,
    ResolvedInputModel, Script, ScriptModel, Transaction, TransactionModel, with_cell_dep,
    with_header_dep, with_input, with_output,
};
use crate::certificate_type::{read_capacity, recorded_capacity};
use crate::config::{
    certificate_deployment_on, check_deployment_on, code_dep, dao_certificate_check_deployment,
    dao_certificate_deployment, script_of, AssembleError, ChainConfig, DeploymentModel,
};
use crate::encoding::{script_hash, script_hash_of};
use crate::operation::{
    deposit_result, is_certificate_owned_by, mint_result, AddDaoCertificateCheckCelldep,
    AddDaoCertificateInputCell, AddDaoCertificateOutputCellWithDaoDeposit,
    AddDaoCertificateOutputCellWithSporeTypeBurn, DepositOutputs, MintOutputs,
};
use crate::protocol::{burn_link, make_burn_link};

verus! {

/// The lock-proxy script that marks `depositer`'s authorisation cells.
pub open spec fn lock_proxy_script(config: ChainConfig, depositer: ScriptModel) -> ScriptModel {
    script_of(config.lock_proxy@, script_hash_of(depositer))
}

/// The burn-link lock, on `config`'s chain, to the cell typed by `target`.
pub open spec fn burn_link_on(config: ChainConfig, target: ScriptModel) -> ScriptModel {
    burn_link(config.type_burn@.code_hash, script_hash_of(target))
}

/// The burn-link lock that a cell chained behind the cell typed by `target`
/// carries: what to look for on chain when unwinding a chain.
pub fn type_burn_lock_for(config: &ChainConfig, target: &Script) -> (r: Script)
    ensures
        r@ == burn_link_on(*config, target@),
{
    make_burn_link(&config.type_burn.code_hash, script_hash(target))
}

/// Builds a deposit: a certificate for `dao_capacity` owned by `depositer`,
/// and the deposit cell burn-linked to it.
pub fn dao_deposit_with_certificate(
    tx: &mut Transaction,
    config: &ChainConfig,
    depositer: Script,
    dao_capacity: u64,
) -> (r: Result<DepositOutputs, AssembleError>)
    requires
        old(tx)@.outputs.len() + 2 < usize::MAX,
    ensures
        match certificate_deployment_on(config.deployments, config.network) {
            None => r == Err::<DepositOutputs, AssembleError>(AssembleError::DeploymentNotFound)
                && final(tx)@ == old(tx)@,
            Some(d) => if old(tx)@.inputs.len() == 0 {
                r == Err::<DepositOutputs, AssembleError>(AssembleError::CellNotFound) && final(tx)@ == old(tx)@
            } else {
                r matches Ok(o) && o.certificate_index == old(tx)@.outputs.len() && o.deposit_index
                    == old(tx)@.outputs.len() + 1 && final(tx)@ == deposit_result(
                    old(tx)@,
                    *config,
                    d,
                    depositer@,
                    dao_capacity,
                )
            },
        },
{
    AddDaoCertificateOutputCellWithDaoDeposit { depositer, dao_capacity }.run(tx, config)
}

/// The authorisation cell for `depositer`: locked by the certificate-check
/// lock, marked by the lock-proxy type.
pub open spec fn lock_proxy_cell(config: ChainConfig, check: DeploymentModel, depositer: ScriptModel) -> CellModel {
    CellModel {
        capacity: 0,
        lock: script_of(check, Seq::empty()),
        type_script: Some(lock_proxy_script(config, depositer)),
        data: Seq::empty(),
    }
}

/// Creates an authorisation cell that `depositer` can later spend to mint,
/// provided a certificate is spent alongside.
pub fn create_depositer_lock_proxy_cell(
    tx: &mut Transaction,
    config: &ChainConfig,
    depositer: &Script,
) -> (r: Result<usize, AssembleError>)
    requires
        old(tx)@.outputs.len() + 1 < usize::MAX,
    ensures
        match check_deployment_on(config.deployments, config.network) {
            None => r == Err::<usize, AssembleError>(AssembleError::DeploymentNotFound) && final(tx)@ == old(tx)@,
            Some(c) => r == Ok::<usize, AssembleError>(old(tx)@.outputs.len() as usize) && final(tx)@ == with_output(
                with_cell_dep(with_cell_dep(old(tx)@, code_dep(c)), code_dep(config.lock_proxy@)),
                lock_proxy_cell(*config, c, depositer@),
            ),
        },
{
    let check = dao_certificate_check_deployment(&config.deployments, config.network)?;
    AddDaoCertificateCheckCelldep {}.run(tx, config)?;
    tx.add_cell_dep(config.lock_proxy.cell_dep());
    let lock = check.script(Vec::new());
    let marker = config.lock_proxy.script(script_hash(depositer));
    let i = tx.push_output(
        Cell { capacity: 0, lock, type_script: Some(marker), data: Vec::new() },
    );
    proof {
        assert(tx@.outputs.last().data =~= Seq::<u8>::empty());
    }
    Ok(i)
}

/// Why a mint cannot be assembled from the cells found, if it cannot.
pub open spec fn mint_obstacle(
    config: ChainConfig,
    depositer: ScriptModel,
    proxy: ResolvedInputModel,
    certificate: ResolvedInputModel,
) -> Option<AssembleError> {
    if proxy.cell.type_script != Some(lock_proxy_script(config, depositer)) {
        Some(AssembleError::CellNotFound)
    } else {
        match certificate_deployment_on(config.deployments, config.network) {
            None => Some(AssembleError::DeploymentNotFound),
            Some(d) => if !is_certificate_owned_by(certificate.cell, depositer, d) {
                Some(AssembleError::CellNotFound)
            } else if recorded_capacity(certificate.cell.data) is None {
                Some(AssembleError::CellDataMalformed)
            } else {
                None
            },
        }
    }
}

/// The skeleton after a mint: the authorisation cell consumed and re-created,
/// the certificate consumed with its deposit block's header, and the
/// collectible and the re-chained certificate created.
pub open spec fn mint_pipeline_result(
    tx: TransactionModel,
    config: ChainConfig,
    d: DeploymentModel,
    cluster_id: Seq<u8>,
    proxy: ResolvedInputModel,
    certificate: ResolvedInputModel,
    header: HeaderModel,
    cluster_dep: CellDepModel,
) -> TransactionModel {
    let t1 = with_output(with_input(with_cell_dep(tx, code_dep(config.lock_proxy@)), proxy), proxy.cell);
    let t2 = with_header_dep(with_input(with_cell_dep(t1, code_dep(d)), certificate), header);
    mint_result(t2, config, tx.inputs.len() + 1int, cluster_id, header, cluster_dep)
}

fn copy_input(i: &ResolvedInput) -> (r: ResolvedInput)
    ensures
        r@ == i@,
{
    ResolvedInput { input: i.input.copy(), cell: i.cell.copy() }
}

/// Builds a mint: spends `depositer`'s authorisation cell `proxy` (and gives
/// it back), spends the unchained `certificate`, creates a collectible in
/// cluster `cluster_id` recording the deposit, and re-creates the
/// certificate burn-linked to it. `header` is the header of the block the
/// certificate was created in, `cluster_dep` the dependency on the cluster.
pub fn spore_mint_with_certificate(
    tx: &mut Transaction,
    config: &ChainConfig,
    depositer: &Script,
    cluster_id: Vec<u8>,
    proxy: ResolvedInput,
    certificate: ResolvedInput,
    header: Header,
    cluster_dep: CellDep,
) -> (r: Result<MintOutputs, AssembleError>)
    requires
        old(tx)@.inputs.len() + 2 < usize::MAX,
        old(tx)@.outputs.len() + 3 < usize::MAX,
    ensures
        match mint_obstacle(*config, depositer@, proxy@, certificate@) {
            Some(e) => r == Err::<MintOutputs, AssembleError>(e) && final(tx)@ == old(tx)@,
            None => r matches Ok(o) && o.spore_index == old(tx)@.outputs.len() + 1
                && o.certificate_index == old(tx)@.outputs.len() + 2 && final(tx)@
                == mint_pipeline_result(
                old(tx)@,
                *config,
                certificate_deployment_on(config.deployments, config.network)->0,
                cluster_id@,
                proxy@,
                certificate@,
                header@,
                cluster_dep@,
            ),
        },
{
    let marker = config.lock_proxy.script(script_hash(depositer));
    let is_proxy = match &proxy.cell.type_script {
        Some(t) => t.same_as(&marker),
        None => false,
    };
    if !is_proxy {
        return Err(AssembleError::CellNotFound);
    }
    let d = dao_certificate_deployment(&config.deployments, config.network)?;
    let owned = match &certificate.cell.type_script {
        Some(t) => certificate.cell.lock.same_as(depositer) && crate::cell::bytes_eq(
            t.code_hash.as_slice(),
            d.code_hash.as_slice(),
        ) && t.hash_type == d.hash_type,
        None => false,
    };
    if !owned {
        return Err(AssembleError::CellNotFound);
    }
    if read_capacity(&certificate.cell.data).is_none() {
        return Err(AssembleError::CellDataMalformed);
    }
    // The authorisation cell is spent and given back unchanged.
    tx.add_cell_dep(config.lock_proxy.cell_dep());
    let back = proxy.cell.copy();
    tx.push_input(proxy);
    tx.push_output(back);
    let step = AddDaoCertificateInputCell { depositer: depositer.copy() };
    let index = match step.run(tx, config, certificate, header.copy()) {
        Ok(i) => i,
        Err(e) => return Err(e),
    };
    let step = AddDaoCertificateOutputCellWithSporeTypeBurn {
        dao_certificate_input_index: index,
        cluster_id,
    };
    step.run(tx, config, header, cluster_dep)
}

/// Indices of the inputs a withdrawal consumes.
pub struct WithdrawInputs {
    pub spore_index: usize,
    pub certificate_index: usize,
    pub deposit_index: usize,
}

/// Why a withdrawal cannot be assembled from the cells found, if it cannot.
pub open spec fn withdraw_obstacle(
    config: ChainConfig,
    depositer: ScriptModel,
    spore_id: Seq<u8>,
    spore: ResolvedInputModel,
    certificate: ResolvedInputModel,
    deposit: ResolvedInputModel,
) -> bool {
    ||| spore.cell.type_script != Some(script_of(config.spore@, spore_id))
    ||| spore.cell.lock != depositer
    ||| certificate.cell.lock != burn_link_on(config, spore.cell.type_script->0)
    ||| certificate.cell.type_script is None
    ||| deposit.cell.lock != burn_link_on(config, certificate.cell.type_script->0)
}

/// Builds a withdrawal: consumes `depositer`'s collectible `spore_id`, then
/// the certificate burn-linked to it, then the deposit burn-linked to the
/// certificate. Creates no chained outputs.
pub fn dao_withdraw_with_certificate(
    tx: &mut Transaction,
    config: &ChainConfig,
    depositer: &Script,
    spore_id: &Vec<u8>,
    spore: ResolvedInput,
    certificate: ResolvedInput,
    deposit: ResolvedInput,
) -> (r: Result<WithdrawInputs, AssembleError>)
    requires
        old(tx)@.inputs.len() + 3 < usize::MAX,
    ensures
        withdraw_obstacle(*config, depositer@, spore_id@, spore@, certificate@, deposit@) ==> r
            == Err::<WithdrawInputs, AssembleError>(AssembleError::CellNotFound) && final(tx)@
            == old(tx)@,
        !withdraw_obstacle(*config, depositer@, spore_id@, spore@, certificate@, deposit@) ==> (r
            matches Ok(o) && o.spore_index == old(tx)@.inputs.len() && o.certificate_index == old(tx)@.inputs.len() + 1 && o.deposit_index == old(tx)@.inputs.len() + 2 && final(tx)@
            == with_input(
            with_input(
                with_cell_dep(
                    with_input(with_cell_dep(old(tx)@, code_dep(config.spore@)), spore@),
                    code_dep(config.type_burn@),
                ),
                certificate@,
            ),
            deposit@,
        )),
        r matches Ok(o) ==> final(tx)@.inputs[o.certificate_index as int].cell.lock == burn_link_on(
            *config,
            final(tx)@.inputs[o.spore_index as int].cell.type_script->0,
        ) && final(tx)@.inputs[o.deposit_index as int].cell.lock == burn_link_on(
            *config,
            final(tx)@.inputs[o.certificate_index as int].cell.type_script->0,
        ),
{
    let expected_type = config.spore.script(copy_bytes(spore_id));
    let spore_type = match &spore.cell.type_script {
        Some(t) => t,
        None => return Err(AssembleError::CellNotFound),
    };
    if !spore_type.same_as(&expected_type) || !spore.cell.lock.same_as(depositer) {
        return Err(AssembleError::CellNotFound);
    }
    if !certificate.cell.lock.same_as(&type_burn_lock_for(config, spore_type)) {
        return Err(AssembleError::CellNotFound);
    }
    let certificate_type = match &certificate.cell.type_script {
        Some(t) => t,
        None => return Err(AssembleError::CellNotFound),
    };
    if !deposit.cell.lock.same_as(&type_burn_lock_for(config, certificate_type)) {
        return Err(AssembleError::CellNotFound);
    }
    tx.add_cell_dep(config.spore.cell_dep());
    let spore_index = tx.push_input(spore);
    tx.add_cell_dep(config.type_burn.cell_dep());
    let certificate_index = tx.push_input(certificate);
    let deposit_index = tx.push_input(deposit);
    Ok(WithdrawInputs { spore_index, certificate_index, deposit_index })
}

} // verus!
