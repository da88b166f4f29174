//! Shared protocol terms: the code hashes the predicates recognise, the
//! burn-link lock, the certificate's type-id, and the collectible's content.

use vstd::prelude::*;
use vstd::bytes::spec_u64_to_le_bytes;
use crate::cell::{bytes_eq, copy_bytes, CellInput, CellInputModel, Script, ScriptModel, HASH_TYPE_TYPE};
use crate::encoding::{append_bytes, cell_input_bytes, cell_input_to_bytes};
use crate::hash::{ckb_hash, ckb_hash_of, HASH_LEN};

verus! {

/// Code hashes of the scripts that the on-chain predicates recognise.
pub struct ProtocolCodes {
    /// Type code of the yield-bearing deposit cell.
    pub dao_type: Vec<u8>,
    /// Type code of the collectible.
    pub spore_type: Vec<u8>,
    /// Lock code of the burn-link predicate.
    pub type_burn: Vec<u8>,
    /// Type code of the certificate.
    pub certificate_type: Vec<u8>,
}

pub ghost struct ProtocolCodesModel {
    pub dao_type: Seq<u8>,
    pub spore_type: Seq<u8>,
    pub type_burn: Seq<u8>,
    pub certificate_type: Seq<u8>,
}

impl View for ProtocolCodes {
    type V = ProtocolCodesModel;

    open spec fn view(&self) -> ProtocolCodesModel {
        ProtocolCodesModel {
            dao_type: self.dao_type@,
            spore_type: self.spore_type@,
            type_burn: self.type_burn@,
            certificate_type: self.certificate_type@,
        }
    }
}

/// The burn-link lock that ties a cell to the cell whose type hash is `target`.
pub open spec fn burn_link(type_burn: Seq<u8>, target: Seq<u8>) -> ScriptModel {
    ScriptModel { code_hash: type_burn, hash_type: HASH_TYPE_TYPE, args: target }
}

/// Whether `lock` is a burn-link to the cell whose type hash is `target`.
pub open spec fn is_burn_link_to(lock: ScriptModel, type_burn: Seq<u8>, target: Seq<u8>) -> bool {
    lock.code_hash == type_burn && lock.args == target
}

/// Builds the burn-link lock to the cell whose type hash is `target`.
pub fn make_burn_link(type_burn: &Vec<u8>, target: Vec<u8>) -> (r: Script)
    ensures
        r@ == burn_link(type_burn@, target@),
{
    Script { code_hash: copy_bytes(type_burn), hash_type: HASH_TYPE_TYPE, args: target }
}

/// Whether `lock` is a burn-link to the cell whose type hash is `target`.
pub fn burn_link_to(lock: &Script, type_burn: &Vec<u8>, target: &Vec<u8>) -> (r: bool)
    ensures
        r == is_burn_link_to(lock@, type_burn@, target@),
{
    bytes_eq(lock.code_hash.as_slice(), type_burn.as_slice()) && bytes_eq(
        lock.args.as_slice(),
        target.as_slice(),
    )
}

/// The bytes hashed into a type-id: the serialised first input, then the
/// output index as a little-endian 64-bit number.
pub open spec fn type_id_preimage(first_input: CellInputModel, index: u64) -> Seq<u8> {
    cell_input_bytes(first_input) + spec_u64_to_le_bytes(index)
}

/// The type-id of the cell at output `index` of a transaction whose first
/// input is `first_input`.
pub open spec fn type_id_of(first_input: CellInputModel, index: u64) -> Seq<u8> {
    ckb_hash_of(type_id_preimage(first_input, index))
}

/// Computes the type-id of the cell at output `index`.
pub fn calc_type_id(first_input: &CellInput, index: u64) -> (r: Vec<u8>)
    ensures
        r@ == type_id_of(first_input@, index),
        r@.len() == HASH_LEN,
{
    let mut pre = cell_input_to_bytes(first_input);
    let idx = vstd::bytes::u64_to_le_bytes(index);
    append_bytes(&mut pre, idx.as_slice());
    ckb_hash(pre.as_slice())
}

/// The content type that a collectible minted here must carry: `dob/1`.
pub open spec fn dob_content_type() -> Seq<u8> {
    seq![100u8, 111u8, 98u8, 47u8, 49u8]
}

pub fn dob_content_type_bytes() -> (r: Vec<u8>)
    ensures
        r@ == dob_content_type(),
{
    let r: Vec<u8> = vec![100u8, 111u8, 98u8, 47u8, 49u8];
    assert(r@ =~= dob_content_type());
    r
}

/// The content a collectible records: the deposited capacity, then the
/// number of the block the deposit began in, each as a little-endian u64.
pub open spec fn dob_content(capacity: u64, block_number: u64) -> Seq<u8> {
    spec_u64_to_le_bytes(capacity) + spec_u64_to_le_bytes(block_number)
}

/// Builds the content a collectible records.
pub fn make_dob_content(capacity: u64, block_number: u64) -> (r: Vec<u8>)
    ensures
        r@ == dob_content(capacity, block_number),
{
    let mut r = vstd::bytes::u64_to_le_bytes(capacity);
    let n = vstd::bytes::u64_to_le_bytes(block_number);
    append_bytes(&mut r, n.as_slice());
    r
}

} // verus!
