//! The ledger's binary layouts: little-endian numbers, byte vectors with a
//! length header, three-field tables, and the serialised script and input
//! that hashes are taken over.

use vstd::prelude::*;
use vstd::bytes::{spec_u32_to_le_bytes, spec_u64_to_le_bytes, u32_to_le_bytes, u64_to_le_bytes};
use crate::cell::{CellInput, CellInputModel, OutPointModel, Script, ScriptModel};
use crate::hash::{ckb_hash, ckb_hash_of};

verus! {

/// Width of a length or offset field.
pub const NUMBER_SIZE: usize = 4;

/// Header size of a table with three fields: total size and three offsets.
pub const TABLE3_HEADER: usize = 16;

/// A number reduced into the 32 bits of a size field.
pub open spec fn u32_wrap(n: int) -> u32 {
    (n % 0x1_0000_0000) as u32
}

/// A size field holding `n` (reduced to 32 bits).
pub open spec fn le32(n: int) -> Seq<u8> {
    spec_u32_to_le_bytes(u32_wrap(n))
}

/// A byte vector: its length, then its bytes.
pub open spec fn fixvec(b: Seq<u8>) -> Seq<u8> {
    le32(b.len() as int) + b
}

/// A table of three fields: total size, the three field offsets, the fields.
pub open spec fn table3(a: Seq<u8>, b: Seq<u8>, c: Seq<u8>) -> Seq<u8> {
    let h = TABLE3_HEADER as int;
    le32(h + a.len() + b.len() + c.len()) + le32(h) + le32(h + a.len()) + le32(
        h + a.len() + b.len(),
    ) + a + b + c
}

/// Serialised script: code hash, hash type, arguments.
pub open spec fn script_bytes(s: ScriptModel) -> Seq<u8> {
    table3(s.code_hash, seq![s.hash_type], fixvec(s.args))
}

/// Type hash (or lock hash) of a script.
pub open spec fn script_hash_of(s: ScriptModel) -> Seq<u8> {
    ckb_hash_of(script_bytes(s))
}

/// Serialised out point: transaction hash, then output index.
pub open spec fn out_point_bytes(o: OutPointModel) -> Seq<u8> {
    o.tx_hash + spec_u32_to_le_bytes(o.index)
}

/// Serialised input: `since`, then the out point.
pub open spec fn cell_input_bytes(i: CellInputModel) -> Seq<u8> {
    spec_u64_to_le_bytes(i.since) + out_point_bytes(i.previous_output)
}

proof fn lemma_wrap_add(p: int, q: int)
    ensures
        u32_wrap(u32_wrap(p) + q) == u32_wrap(p + q),
{
    let m = 0x1_0000_0000int;
    vstd::arithmetic::div_mod::lemma_add_mod_noop(p, q, m);
    vstd::arithmetic::div_mod::lemma_add_mod_noop(p % m, q, m);
    vstd::arithmetic::div_mod::lemma_mod_twice(p, m);
}

/// `x + n`, reduced to 32 bits.
fn wrapping_add_len(x: u32, n: usize) -> (r: u32)
    ensures
        r == u32_wrap(x + n),
{
    let s: u64 = x as u64 + (n as u64 % 0x1_0000_0000u64);
    let r = (s % 0x1_0000_0000u64) as u32;
    proof {
        let m = 0x1_0000_0000int;
        vstd::arithmetic::div_mod::lemma_add_mod_noop(x as int, n as int, m);
        vstd::arithmetic::div_mod::lemma_small_mod(x as nat, m as nat);
    }
    r
}

/// Appends the bytes of `b` to `out`.
pub fn append_bytes(out: &mut Vec<u8>, b: &[u8])
    ensures
        final(out)@ == old(out)@ + b@,
{
    let mut t = vstd::slice::slice_to_vec(b);
    out.append(&mut t);
}

/// Appends a size field holding `n`.
pub fn append_le32(out: &mut Vec<u8>, n: u32)
    ensures
        final(out)@ == old(out)@ + le32(n as int),
{
    let b = u32_to_le_bytes(n);
    proof {
        vstd::arithmetic::div_mod::lemma_small_mod(n as nat, 0x1_0000_0000nat);
    }
    append_bytes(out, b.as_slice());
}

/// The length-prefixed form of a byte string.
pub fn encode_fixvec(b: &[u8]) -> (r: Vec<u8>)
    ensures
        r@ == fixvec(b@),
{
    let mut out: Vec<u8> = Vec::new();
    let n = wrapping_add_len(0, b.len());
    append_le32(&mut out, n);
    append_bytes(&mut out, b);
    out
}

/// A three-field table over the given field encodings.
pub fn encode_table3(a: &[u8], b: &[u8], c: &[u8]) -> (r: Vec<u8>)
    ensures
        r@ == table3(a@, b@, c@),
{
    let h: u32 = TABLE3_HEADER as u32;
    let off1 = wrapping_add_len(h, a.len());
    let off2 = wrapping_add_len(off1, b.len());
    let total = wrapping_add_len(off2, c.len());
    proof {
        let hh = TABLE3_HEADER as int;
        lemma_wrap_add(hh + a@.len(), b@.len() as int);
        lemma_wrap_add(hh + a@.len() + b@.len(), c@.len() as int);
        assert(u32_wrap(off2 + c@.len()) == u32_wrap(hh + a@.len() + b@.len() + c@.len()));
    }
    let mut out: Vec<u8> = Vec::new();
    append_le32(&mut out, total);
    append_le32(&mut out, h);
    append_le32(&mut out, off1);
    append_le32(&mut out, off2);
    append_bytes(&mut out, a);
    append_bytes(&mut out, b);
    append_bytes(&mut out, c);
    proof {
        let hh = TABLE3_HEADER as int;
        assert(le32(total as int) == le32(hh + a@.len() + b@.len() + c@.len()));
        assert(le32(off1 as int) == le32(hh + a@.len()));
        assert(le32(off2 as int) == le32(hh + a@.len() + b@.len()));
    }
    out
}

/// Serialised form of a script.
pub fn script_to_bytes(s: &Script) -> (r: Vec<u8>)
    ensures
        r@ == script_bytes(s@),
{
    let ht: Vec<u8> = vec![s.hash_type];
    let args = encode_fixvec(s.args.as_slice());
    let r = encode_table3(s.code_hash.as_slice(), ht.as_slice(), args.as_slice());
    assert(ht@ == seq![s.hash_type]);
    r
}

/// Type hash (or lock hash) of a script.
pub fn script_hash(s: &Script) -> (r: Vec<u8>)
    ensures
        r@ == script_hash_of(s@),
        r@.len() == crate::hash::HASH_LEN,
{
    let b = script_to_bytes(s);
    ckb_hash(b.as_slice())
}

/// Serialised form of an input.
pub fn cell_input_to_bytes(i: &CellInput) -> (r: Vec<u8>)
    ensures
        r@ == cell_input_bytes(i@),
{
    let mut out = u64_to_le_bytes(i.since);
    append_bytes(&mut out, i.previous_output.tx_hash.as_slice());
    let idx = u32_to_le_bytes(i.previous_output.index);
    append_bytes(&mut out, idx.as_slice());
    proof {
        assert(out@ == spec_u64_to_le_bytes(i.since) + i.previous_output.tx_hash@
            + spec_u32_to_le_bytes(i.previous_output.index));
        assert(out@ =~= cell_input_bytes(i@));
    }
    out
}

} // verus!
