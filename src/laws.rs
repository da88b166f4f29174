//! Properties of the protocol as a whole: what every accepted transaction
//! looks like, and that the assembled transactions are the accepted ones.

use vstd::prelude::*;
use vstd::bytes::{spec_u32_to_le_bytes, spec_u64_to_le_bytes};
use crate::cell::{
    find_type_code, find_typed, has_type_code, input_cells, CellInputModel, ScriptModel,
    TransactionModel,
};
use crate::certificate_type::{
    certificate_verdict, recorded_capacity, stage_of, ScriptError, Stage,
};
use crate::encoding::{cell_input_bytes, script_hash_of};
use crate::protocol::{
    dob_content, dob_content_type, is_burn_link_to, type_id_of, type_id_preimage,
    ProtocolCodesModel,
};
use crate::spore::parse_spore_data;
use crate::check_lock::spends_certificate;
use crate::config::{certificate_deployment_on, ChainConfig, DeploymentModel};
use crate::operation::{deposit_result, new_certificate_script};
use crate::calculator::{lock_proxy_script, mint_obstacle, mint_pipeline_result};
use crate::cell::{CellDepModel, HeaderModel, ResolvedInputModel};

verus! {

/// An accepted deposit carries, as the certificate's argument, the type-id
/// hashed from the first input and the certificate's own output index; the
/// certificate records the deposit's capacity as a little-endian u64; and
/// the deposit cell is burn-linked to the certificate's type hash.
pub proof fn lemma_accepted_deposit(tx: TransactionModel, own: ScriptModel, codes: ProtocolCodesModel)
    requires
        stage_of(tx, own) == Ok::<Stage, ScriptError>(Stage::Deposit),
        certificate_verdict(tx, own, codes) == Ok::<(), ScriptError>(()),
    ensures
        ({
            let i = find_typed(tx.outputs, own, 0)->0;
            let d = find_type_code(tx.outputs, codes.dao_type, 0)->0;
            &&& 0 <= i < tx.outputs.len()
            &&& tx.outputs[i].type_script == Some(own)
            &&& tx.inputs.len() > 0
            &&& own.args == type_id_of(tx.inputs[0].input, i as u64)
            &&& 0 <= d < tx.outputs.len()
            &&& has_type_code(tx.outputs[d], codes.dao_type)
            &&& tx.outputs[i].data.len() >= 8
            &&& tx.outputs[i].data.subrange(0, 8) == spec_u64_to_le_bytes(tx.outputs[d].capacity)
            &&& is_burn_link_to(tx.outputs[d].lock, codes.type_burn, script_hash_of(own))
        }),
{
    crate::cell::lemma_find_typed(tx.outputs, own, 0);
    crate::cell::lemma_find_type_code(tx.outputs, codes.dao_type, 0);
    vstd::bytes::lemma_auto_spec_u64_to_from_le_bytes();
    let i = find_typed(tx.outputs, own, 0)->0;
    let data = tx.outputs[i].data;
    assert(data.subrange(0, 8).len() == 8);
}

/// A deposit whose certificate argument is not the type-id of its first
/// input and output index is rejected for that reason.
pub proof fn lemma_deposit_type_id_required(
    tx: TransactionModel,
    own: ScriptModel,
    codes: ProtocolCodesModel,
)
    requires
        stage_of(tx, own) == Ok::<Stage, ScriptError>(Stage::Deposit),
        tx.inputs.len() == 0 || own.args != type_id_of(
            tx.inputs[0].input,
            find_typed(tx.outputs, own, 0)->0 as u64,
        ),
    ensures
        certificate_verdict(tx, own, codes) == Err::<(), ScriptError>(ScriptError::UnexpectedTypeId),
{
}

/// Different first inputs or output indices give different bytes to hash:
/// the type-id's preimage determines both.
pub proof fn lemma_type_id_preimage_injective(a: CellInputModel, i: u64, b: CellInputModel, j: u64)
    requires
        a.previous_output.tx_hash.len() == 32,
        b.previous_output.tx_hash.len() == 32,
        type_id_preimage(a, i) == type_id_preimage(b, j),
    ensures
        a == b,
        i == j,
{
    vstd::bytes::lemma_auto_spec_u64_to_from_le_bytes();
    vstd::bytes::lemma_auto_spec_u32_to_from_le_bytes();
    let pa = type_id_preimage(a, i);
    let pb = type_id_preimage(b, j);
    assert(cell_input_bytes(a).len() == 44);
    assert(cell_input_bytes(b).len() == 44);
    assert(pa.subrange(44, 52) =~= spec_u64_to_le_bytes(i));
    assert(pb.subrange(44, 52) =~= spec_u64_to_le_bytes(j));
    assert(pa.subrange(0, 8) =~= spec_u64_to_le_bytes(a.since));
    assert(pb.subrange(0, 8) =~= spec_u64_to_le_bytes(b.since));
    assert(pa.subrange(8, 40) =~= a.previous_output.tx_hash);
    assert(pb.subrange(8, 40) =~= b.previous_output.tx_hash);
    assert(pa.subrange(40, 44) =~= spec_u32_to_le_bytes(a.previous_output.index));
    assert(pb.subrange(40, 44) =~= spec_u32_to_le_bytes(b.previous_output.index));
}

/// Minting a certificate that is already burn-linked is rejected; once a
/// collectible is among the outputs, the reason is the double mint.
pub proof fn lemma_double_mint_rejected(tx: TransactionModel, own: ScriptModel, codes: ProtocolCodesModel)
    requires
        stage_of(tx, own) == Ok::<Stage, ScriptError>(Stage::Mint),
        input_cells(tx)[find_typed(input_cells(tx), own, 0)->0].lock.code_hash == codes.type_burn,
    ensures
        certificate_verdict(tx, own, codes) is Err,
        find_type_code(tx.outputs, codes.spore_type, 0) is Some ==> certificate_verdict(
            tx,
            own,
            codes,
        ) == Err::<(), ScriptError>(ScriptError::UnsupportedDoubleMint),
{
}

/// An accepted mint creates a collectible of content type `dob/1`, in some
/// cluster, whose content is the certificate's capacity followed by the
/// number of the header the transaction attaches for the certificate.
pub proof fn lemma_accepted_mint(tx: TransactionModel, own: ScriptModel, codes: ProtocolCodesModel)
    requires
        stage_of(tx, own) == Ok::<Stage, ScriptError>(Stage::Mint),
        certificate_verdict(tx, own, codes) == Ok::<(), ScriptError>(()),
    ensures
        ({
            let k = find_type_code(tx.outputs, codes.spore_type, 0)->0;
            let cert_in = input_cells(tx)[find_typed(input_cells(tx), own, 0)->0];
            let cert_out = tx.outputs[find_typed(tx.outputs, own, 0)->0];
            let d = parse_spore_data(tx.outputs[k].data)->0;
            &&& 0 <= k < tx.outputs.len()
            &&& has_type_code(tx.outputs[k], codes.spore_type)
            &&& cert_in.lock.code_hash != codes.type_burn
            &&& is_burn_link_to(
                cert_out.lock,
                codes.type_burn,
                script_hash_of(tx.outputs[k].type_script->0),
            )
            &&& parse_spore_data(tx.outputs[k].data) is Some
            &&& d.content_type == dob_content_type()
            &&& d.cluster_id is Some
            &&& recorded_capacity(cert_out.data) is Some
            &&& tx.header_deps.len() > 0
            &&& d.content == dob_content(
                recorded_capacity(cert_out.data)->0,
                tx.header_deps[0].number,
            )
        }),
{
    crate::cell::lemma_find_type_code(tx.outputs, codes.spore_type, 0);
}

/// The certificate predicate accepts every withdrawal, whatever its shape.
pub proof fn lemma_withdraw_accepted(tx: TransactionModel, own: ScriptModel, codes: ProtocolCodesModel)
    requires
        stage_of(tx, own) == Ok::<Stage, ScriptError>(Stage::Withdraw),
    ensures
        certificate_verdict(tx, own, codes) == Ok::<(), ScriptError>(()),
{
}

/// A deposit assembled on a skeleton that has an input, and no certificate
/// or deposit cell yet, is accepted by the certificate predicate as a
/// deposit, given predicate codes that match the chain's deployments.
pub proof fn lemma_assembled_deposit_accepted(
    tx: TransactionModel,
    config: ChainConfig,
    d: DeploymentModel,
    depositer: ScriptModel,
    capacity: u64,
    codes: ProtocolCodesModel,
)
    requires
        certificate_deployment_on(config.deployments, config.network) == Some(d),
        codes.dao_type == config.dao@.code_hash,
        codes.type_burn == config.type_burn@.code_hash,
        d.code_hash != config.dao@.code_hash,
        tx.inputs.len() > 0,
        forall|j: int| 0 <= j < tx.outputs.len() ==> !has_type_code(#[trigger] tx.outputs[j], d.code_hash),
        forall|j: int| 0 <= j < tx.outputs.len() ==> !has_type_code(#[trigger] tx.outputs[j], codes.dao_type),
        forall|j: int|
            0 <= j < input_cells(tx).len() ==> !has_type_code(#[trigger] input_cells(tx)[j], d.code_hash),
    ensures
        ({
            let t = deposit_result(tx, config, d, depositer, capacity);
            let cert = new_certificate_script(d, tx);
            &&& stage_of(t, cert) == Ok::<Stage, ScriptError>(Stage::Deposit)
            &&& certificate_verdict(t, cert, codes) == Ok::<(), ScriptError>(())
        }),
{
    let t = deposit_result(tx, config, d, depositer, capacity);
    let cert = new_certificate_script(d, tx);
    let n = tx.outputs.len() as int;
    vstd::bytes::lemma_auto_spec_u64_to_from_le_bytes();
    assert(t.inputs == tx.inputs);
    assert(t.outputs.len() == n + 2);
    assert(forall|j: int| 0 <= j < n ==> t.outputs[j] == tx.outputs[j]);
    assert(input_cells(t) == input_cells(tx));
    assert forall|j: int| 0 <= j < input_cells(t).len() implies input_cells(t)[j].type_script != Some(cert) by {
        assert(!has_type_code(input_cells(tx)[j], d.code_hash));
    }
    crate::cell::lemma_find_typed_absent(input_cells(t), cert);
    assert forall|j: int| 0 <= j < n implies t.outputs[j].type_script != Some(cert) by {
        assert(!has_type_code(tx.outputs[j], d.code_hash));
    }
    crate::cell::lemma_find_typed_at(t.outputs, cert, n);
    assert forall|j: int| 0 <= j < n + 1 implies !has_type_code(t.outputs[j], codes.dao_type) by {
        if j < n {
            assert(!has_type_code(tx.outputs[j], codes.dao_type));
        }
    }
    crate::cell::lemma_find_type_code_at(t.outputs, codes.dao_type, n + 1);
    assert(t.outputs[n].data.subrange(0, 8) =~= t.outputs[n].data);
}

/// A mint assembled on a fresh skeleton, from an authorisation cell and an
/// unchained certificate that the assembler accepts, is accepted by the
/// certificate predicate as a mint, and spends a certificate as the
/// authorisation cell's check lock demands, given predicate codes that match
/// the chain's deployments and contracts whose code hashes differ.
pub proof fn lemma_assembled_mint_accepted(
    tx: TransactionModel,
    config: ChainConfig,
    depositer: ScriptModel,
    cluster_id: Seq<u8>,
    proxy: ResolvedInputModel,
    certificate: ResolvedInputModel,
    header: HeaderModel,
    cluster_dep: CellDepModel,
    codes: ProtocolCodesModel,
)
    requires
        tx.cell_deps.len() == 0,
        tx.inputs.len() == 0,
        tx.outputs.len() == 0,
        tx.header_deps.len() == 0,
        mint_obstacle(config, depositer, proxy, certificate) is None,
        depositer.code_hash != codes.type_burn,
        codes.spore_type == config.spore@.code_hash,
        codes.type_burn == config.type_burn@.code_hash,
        codes.certificate_type == certificate_deployment_on(
            config.deployments,
            config.network,
        )->0.code_hash,
        config.lock_proxy@.code_hash != config.spore@.code_hash,
        config.lock_proxy@.code_hash != certificate_deployment_on(
            config.deployments,
            config.network,
        )->0.code_hash,
        config.spore@.code_hash != certificate_deployment_on(
            config.deployments,
            config.network,
        )->0.code_hash,
        cluster_id.len() < 0x1_0000_0000 - 64,
    ensures
        ({
            let d = certificate_deployment_on(config.deployments, config.network)->0;
            let t = mint_pipeline_result(
                tx,
                config,
                d,
                cluster_id,
                proxy,
                certificate,
                header,
                cluster_dep,
            );
            let own = certificate.cell.type_script->0;
            &&& stage_of(t, own) == Ok::<Stage, ScriptError>(Stage::Mint)
            &&& certificate_verdict(t, own, codes) == Ok::<(), ScriptError>(())
            &&& spends_certificate(t, codes.certificate_type)
        }),
{
    let d = certificate_deployment_on(config.deployments, config.network)->0;
    let t = mint_pipeline_result(tx, config, d, cluster_id, proxy, certificate, header, cluster_dep);
    let own = certificate.cell.type_script->0;
    vstd::bytes::lemma_auto_spec_u64_to_from_le_bytes();
    assert(t.inputs.len() == 2);
    assert(t.inputs[0] == proxy);
    assert(t.inputs[1] == certificate);
    assert(t.outputs.len() == 3);
    assert(t.outputs[0] == proxy.cell);
    let t1 = crate::cell::with_output(
        crate::cell::with_input(
            crate::cell::with_cell_dep(tx, crate::config::code_dep(config.lock_proxy@)),
            proxy,
        ),
        proxy.cell,
    );
    let t2 = crate::cell::with_header_dep(
        crate::cell::with_input(crate::cell::with_cell_dep(t1, crate::config::code_dep(d)), certificate),
        header,
    );
    assert(t2.header_deps.len() == 1);
    assert(t2.header_deps[0] == header);
    assert(t2.header_deps[0].hash == header.hash);
    assert(proxy.cell.type_script == Some(lock_proxy_script(config, depositer)));
    let ic = input_cells(t);
    assert(ic[0] == proxy.cell);
    assert(ic[1] == certificate.cell);
    crate::cell::lemma_find_typed_at(ic, own, 1);
    crate::cell::lemma_find_typed_at(t.outputs, own, 2);
    crate::cell::lemma_find_type_code_at(t.outputs, codes.spore_type, 1);
    let capacity = recorded_capacity(certificate.cell.data)->0;
    let sd = crate::operation::dob_data(capacity, header.number, cluster_id);
    vstd::bytes::lemma_auto_spec_u32_to_from_le_bytes();
    assert(dob_content(capacity, header.number).len() == 16);
    assert(crate::spore::spore_data_bytes(sd).len() == 16 + 9 + 20 + 4 + cluster_id.len());
    crate::spore::lemma_spore_data_round_trip(sd);
    assert(t.outputs[2].data.subrange(0, 8) =~= t.outputs[2].data);
    assert(has_type_code(ic[1], codes.certificate_type));
}

} // verus!
