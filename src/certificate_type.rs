//! The certificate type predicate: which transactions may create, re-chain
//! or destroy a certificate cell.

use vstd::prelude::*;
use vstd::bytes::{spec_u64_from_le_bytes, u64_from_le_bytes};
use crate::cell::{
    bytes_eq, input_cells, input_with_type, output_with_type, output_with_type_code, find_type_code,
    find_typed, Script, ScriptModel, Transaction, TransactionModel,
};
use crate::encoding::{script_hash, script_hash_of};
use crate::protocol::{
    burn_link_to, calc_type_id, dob_content, dob_content_type, dob_content_type_bytes,
    is_burn_link_to, make_dob_content, type_id_of, ProtocolCodes, ProtocolCodesModel,
};
use crate::spore::{parse_spore, parse_spore_data};

verus! {

/// Reasons the certificate predicate rejects a transaction.
#[derive(Debug, Clone, Copy, PartialEq, Eq, Structural)]
pub enum ScriptError {
    /// The certificate is in neither the inputs nor the outputs.
    UnknownPattern,
    /// The certificate's argument is not its type-id.
    UnexpectedTypeId,
    /// No deposit cell among the outputs.
    DaoCellNotFound,
    /// The certificate's data is shorter than eight bytes.
    InvalidCertificateDataFormat,
    /// The certificate records another capacity than the deposit holds.
    DaoCapacityNotMatch,
    /// The certificate being minted is already burn-linked.
    UnsupportedDoubleMint,
    /// The deposit cell is not burn-linked to the certificate.
    DaoCellNotLocked,
    /// No collectible among the outputs.
    SporeCellNotFound,
    /// The minted certificate is not burn-linked to the collectible.
    SporeCellNotLocked,
    /// The collectible's data is not well formed.
    InvalidSporeData,
    /// The collectible's content type, cluster or content is not the expected one.
    UnexpectedSporeDataFormat,
}

/// Lifecycle stage of a transaction, inferred from where the certificate appears.
#[derive(Debug, Clone, Copy, PartialEq, Eq, Structural)]
pub enum Stage {
    /// Only among the outputs.
    Deposit,
    /// Among both inputs and outputs.
    Mint,
    /// Only among the inputs.
    Withdraw,
}

/// Length of the capacity field at the start of the certificate's data.
pub const CAPACITY_LEN: usize = 8;

pub open spec fn stage_of(tx: TransactionModel, own: ScriptModel) -> Result<Stage, ScriptError> {
    let in_input = find_typed(input_cells(tx), own, 0) is Some;
    let in_output = find_typed(tx.outputs, own, 0) is Some;
    if in_input && in_output {
        Ok(Stage::Mint)
    } else if in_input {
        Ok(Stage::Withdraw)
    } else if in_output {
        Ok(Stage::Deposit)
    } else {
        Err(ScriptError::UnknownPattern)
    }
}

/// The capacity a certificate's data records, if the data holds one.
pub open spec fn recorded_capacity(data: Seq<u8>) -> Option<u64> {
    if data.len() < CAPACITY_LEN {
        None
    } else {
        Some(spec_u64_from_le_bytes(data.subrange(0, CAPACITY_LEN as int)))
    }
}

/// What the predicate decides for a deposit transaction.
pub open spec fn deposit_verdict(
    tx: TransactionModel,
    own: ScriptModel,
    codes: ProtocolCodesModel,
) -> Result<(), ScriptError> {
    let own_index = find_typed(tx.outputs, own, 0)->0;
    if tx.inputs.len() == 0 || own.args != type_id_of(tx.inputs[0].input, own_index as u64) {
        Err(ScriptError::UnexpectedTypeId)
    } else {
        match find_type_code(tx.outputs, codes.dao_type, 0) {
            None => Err(ScriptError::DaoCellNotFound),
            Some(d) => match recorded_capacity(tx.outputs[own_index].data) {
                None => Err(ScriptError::InvalidCertificateDataFormat),
                Some(capacity) => if capacity != tx.outputs[d].capacity {
                    Err(ScriptError::DaoCapacityNotMatch)
                } else if !is_burn_link_to(
                    tx.outputs[d].lock,
                    codes.type_burn,
                    script_hash_of(own),
                ) {
                    Err(ScriptError::DaoCellNotLocked)
                } else {
                    Ok(())
                },
            },
        }
    }
}

/// What the predicate decides for a mint transaction. The certificate's
/// header is the header dependency at the certificate's position within its
/// script group: the first one.
pub open spec fn mint_verdict(
    tx: TransactionModel,
    own: ScriptModel,
    codes: ProtocolCodesModel,
) -> Result<(), ScriptError> {
    match find_type_code(tx.outputs, codes.spore_type, 0) {
        None => Err(ScriptError::SporeCellNotFound),
        Some(k) => {
            let spore = tx.outputs[k];
            let spore_hash = script_hash_of(spore.type_script->0);
            let cert_in = input_cells(tx)[find_typed(input_cells(tx), own, 0)->0];
            let cert_out = tx.outputs[find_typed(tx.outputs, own, 0)->0];
            if cert_in.lock.code_hash == codes.type_burn {
                Err(ScriptError::UnsupportedDoubleMint)
            } else if !is_burn_link_to(cert_out.lock, codes.type_burn, spore_hash) {
                Err(ScriptError::SporeCellNotLocked)
            } else {
                match parse_spore_data(spore.data) {
                    None => Err(ScriptError::InvalidSporeData),
                    Some(d) => if d.content_type != dob_content_type() || d.cluster_id is None {
                        Err(ScriptError::UnexpectedSporeDataFormat)
                    } else {
                        match recorded_capacity(cert_out.data) {
                            None => Err(ScriptError::InvalidCertificateDataFormat),
                            Some(capacity) => if tx.header_deps.len() == 0 || d.content
                                != dob_content(capacity, tx.header_deps[0].number) {
                                Err(ScriptError::UnexpectedSporeDataFormat)
                            } else {
                                Ok(())
                            },
                        }
                    },
                }
            }
        },
    }
}

/// What the predicate decides for any transaction.
pub open spec fn certificate_verdict(
    tx: TransactionModel,
    own: ScriptModel,
    codes: ProtocolCodesModel,
) -> Result<(), ScriptError> {
    match stage_of(tx, own) {
        Err(e) => Err(e),
        Ok(Stage::Deposit) => deposit_verdict(tx, own, codes),
        Ok(Stage::Mint) => mint_verdict(tx, own, codes),
        Ok(Stage::Withdraw) => Ok(()),
    }
}

/// Infers the lifecycle stage from where the certificate `own` appears.
pub fn classify(tx: &Transaction, own: &Script) -> (r: Result<Stage, ScriptError>)
    ensures
        r == stage_of(tx@, own@),
{
    let in_input = input_with_type(tx, own).is_some();
    let in_output = output_with_type(tx, own).is_some();
    if in_input && in_output {
        Ok(Stage::Mint)
    } else if in_input {
        Ok(Stage::Withdraw)
    } else if in_output {
        Ok(Stage::Deposit)
    } else {
        Err(ScriptError::UnknownPattern)
    }
}

/// The capacity recorded at the start of a certificate's data.
pub fn read_capacity(data: &Vec<u8>) -> (r: Option<u64>)
    ensures
        r == recorded_capacity(data@),
{
    if data.len() < CAPACITY_LEN {
        None
    } else {
        let head = vstd::slice::slice_subrange(data.as_slice(), 0, CAPACITY_LEN);
        Some(u64_from_le_bytes(head))
    }
}

/// Checks a transaction that creates the certificate `own` with a deposit.
pub fn verify_deposit(tx: &Transaction, own: &Script, codes: &ProtocolCodes) -> (r: Result<
    (),
    ScriptError,
>)
    requires
        find_typed(tx@.outputs, own@, 0) is Some,
    ensures
        r == deposit_verdict(tx@, own@, codes@),
{
    let own_index = match output_with_type(tx, own) {
        Some(i) => i,
        None => return Err(ScriptError::UnknownPattern),
    };
    if tx.inputs.len() == 0 {
        return Err(ScriptError::UnexpectedTypeId);
    }
    let expected = calc_type_id(&tx.inputs[0].input, own_index as u64);
    if !bytes_eq(own.args.as_slice(), expected.as_slice()) {
        return Err(ScriptError::UnexpectedTypeId);
    }
    let dao_index = match output_with_type_code(tx, &codes.dao_type) {
        Some(d) => d,
        None => return Err(ScriptError::DaoCellNotFound),
    };
    proof {
        crate::cell::lemma_find_typed(tx@.outputs, own@, 0);
        crate::cell::lemma_find_type_code(tx@.outputs, codes@.dao_type, 0);
    }
    let capacity = match read_capacity(&tx.outputs[own_index].data) {
        Some(c) => c,
        None => return Err(ScriptError::InvalidCertificateDataFormat),
    };
    if capacity != tx.outputs[dao_index].capacity {
        return Err(ScriptError::DaoCapacityNotMatch);
    }
    let own_hash = script_hash(own);
    if !burn_link_to(&tx.outputs[dao_index].lock, &codes.type_burn, &own_hash) {
        return Err(ScriptError::DaoCellNotLocked);
    }
    Ok(())
}

/// Checks a transaction that re-chains the certificate `own` to a new collectible.
pub fn verify_mint(tx: &Transaction, own: &Script, codes: &ProtocolCodes) -> (r: Result<
    (),
    ScriptError,
>)
    requires
        find_typed(input_cells(tx@), own@, 0) is Some,
        find_typed(tx@.outputs, own@, 0) is Some,
    ensures
        r == mint_verdict(tx@, own@, codes@),
{
    let spore_index = match output_with_type_code(tx, &codes.spore_type) {
        Some(k) => k,
        None => return Err(ScriptError::SporeCellNotFound),
    };
    proof {
        crate::cell::lemma_find_type_code(tx@.outputs, codes@.spore_type, 0);
    }
    let spore = &tx.outputs[spore_index];
    let spore_hash = match &spore.type_script {
        Some(t) => script_hash(t),
        None => return Err(ScriptError::SporeCellNotFound),
    };
    let in_index = match input_with_type(tx, own) {
        Some(i) => i,
        None => return Err(ScriptError::UnknownPattern),
    };
    let out_index = match output_with_type(tx, own) {
        Some(i) => i,
        None => return Err(ScriptError::UnknownPattern),
    };
    proof {
        crate::cell::lemma_find_typed(input_cells(tx@), own@, 0);
        crate::cell::lemma_find_typed(tx@.outputs, own@, 0);
    }
    let cert_in = &tx.inputs[in_index].cell;
    let cert_out = &tx.outputs[out_index];
    if bytes_eq(cert_in.lock.code_hash.as_slice(), codes.type_burn.as_slice()) {
        return Err(ScriptError::UnsupportedDoubleMint);
    }
    if !burn_link_to(&cert_out.lock, &codes.type_burn, &spore_hash) {
        return Err(ScriptError::SporeCellNotLocked);
    }
    let data = match parse_spore(spore.data.as_slice()) {
        Some(d) => d,
        None => return Err(ScriptError::InvalidSporeData),
    };
    let dob = dob_content_type_bytes();
    if !bytes_eq(data.content_type.as_slice(), dob.as_slice()) || data.cluster_id.is_none() {
        return Err(ScriptError::UnexpectedSporeDataFormat);
    }
    let capacity = match read_capacity(&cert_out.data) {
        Some(c) => c,
        None => return Err(ScriptError::InvalidCertificateDataFormat),
    };
    if tx.header_deps.len() == 0 {
        return Err(ScriptError::UnexpectedSporeDataFormat);
    }
    let expected = make_dob_content(capacity, tx.header_deps[0].number);
    if !bytes_eq(data.content.as_slice(), expected.as_slice()) {
        return Err(ScriptError::UnexpectedSporeDataFormat);
    }
    Ok(())
}

/// Withdrawal is not checked here: the burn-link locks on the chained cells
/// decide whether they can be spent, so a malformed withdrawal leaves the
/// deposit stuck rather than releasing it.
pub fn verify_withdraw(_tx: &Transaction, _own: &Script) -> (r: Result<(), ScriptError>)
    ensures
        r == Ok::<(), ScriptError>(()),
{
    Ok(())
}

/// The certificate type predicate for the certificate `own`.
pub fn verify_certificate(tx: &Transaction, own: &Script, codes: &ProtocolCodes) -> (r: Result<
    (),
    ScriptError,
>)
    ensures
        r == certificate_verdict(tx@, own@, codes@),
{
    match classify(tx, own) {
        Err(e) => Err(e),
        Ok(Stage::Deposit) => verify_deposit(tx, own, codes),
        Ok(Stage::Mint) => verify_mint(tx, own, codes),
        Ok(Stage::Withdraw) => verify_withdraw(tx, own),
    }
}

} // verus!
