//! The collectible's data layout: a table of content type, content and an
//! optional cluster id, read in the compatible mode that tolerates fields
//! appended by later versions.

use vstd::prelude::*;
use vstd::bytes::{spec_u32_from_le_bytes, u32_from_le_bytes};
use crate::encoding::{encode_fixvec, encode_table3, fixvec, le32, table3, NUMBER_SIZE};

verus! {

/// The fields of a collectible's data that this protocol reads and writes.
pub struct SporeData {
    pub content_type: Vec<u8>,
    pub content: Vec<u8>,
    pub cluster_id: Option<Vec<u8>>,
}

pub ghost struct SporeDataModel {
    pub content_type: Seq<u8>,
    pub content: Seq<u8>,
    pub cluster_id: Option<Seq<u8>>,
}

pub open spec fn opt_bytes_view(o: Option<Vec<u8>>) -> Option<Seq<u8>> {
    match o {
        Some(v) => Some(v@),
        None => None,
    }
}

impl View for SporeData {
    type V = SporeDataModel;

    open spec fn view(&self) -> SporeDataModel {
        SporeDataModel {
            content_type: self.content_type@,
            content: self.content@,
            cluster_id: opt_bytes_view(self.cluster_id),
        }
    }
}

/// An optional byte vector: nothing when absent.
pub open spec fn opt_fixvec(o: Option<Seq<u8>>) -> Seq<u8> {
    match o {
        Some(b) => fixvec(b),
        None => Seq::empty(),
    }
}

/// Serialised collectible data.
pub open spec fn spore_data_bytes(d: SporeDataModel) -> Seq<u8> {
    table3(fixvec(d.content_type), fixvec(d.content), opt_fixvec(d.cluster_id))
}

/// The size field at byte `pos`.
pub open spec fn read_le32(s: Seq<u8>, pos: int) -> int {
    spec_u32_from_le_bytes(s.subrange(pos, pos + 4)) as int
}

/// Number of fields that a table's first offset announces.
pub open spec fn table_field_count(s: Seq<u8>) -> int {
    read_le32(s, 4) / 4 - 1
}

/// Start of field `i` of a table; the table's end for `i` past the last field.
pub open spec fn table_offset(s: Seq<u8>, i: int) -> int {
    if i < table_field_count(s) {
        read_le32(s, 4 + 4 * i)
    } else {
        s.len() as int
    }
}

/// `s` is a table with at least `n` fields, whose header is consistent.
pub open spec fn is_table(s: Seq<u8>, n: int) -> bool {
    &&& s.len() >= 8
    &&& read_le32(s, 0) == s.len()
    &&& read_le32(s, 4) % 4 == 0
    &&& read_le32(s, 4) >= 8
    &&& read_le32(s, 4) <= s.len()
    &&& table_field_count(s) >= n
    &&& forall|i: int|
        0 <= i < table_field_count(s) ==> #[trigger] table_offset(s, i) <= table_offset(s, i + 1)
}

/// Bytes of field `i` of a table.
pub open spec fn table_field(s: Seq<u8>, i: int) -> Seq<u8> {
    s.subrange(table_offset(s, i), table_offset(s, i + 1))
}

/// `s` is a length-prefixed byte vector.
pub open spec fn is_fixvec(s: Seq<u8>) -> bool {
    s.len() >= 4 && read_le32(s, 0) == s.len() - 4
}

/// `s` is an absent or a present byte vector.
pub open spec fn is_opt_fixvec(s: Seq<u8>) -> bool {
    s.len() == 0 || is_fixvec(s)
}

/// What a collectible's data bytes hold, if they are well formed.
pub open spec fn parse_spore_data(s: Seq<u8>) -> Option<SporeDataModel> {
    if is_table(s, 3) && is_fixvec(table_field(s, 0)) && is_fixvec(table_field(s, 1))
        && is_opt_fixvec(table_field(s, 2)) {
        let f2 = table_field(s, 2);
        Some(
            SporeDataModel {
                content_type: table_field(s, 0).subrange(4, table_field(s, 0).len() as int),
                content: table_field(s, 1).subrange(4, table_field(s, 1).len() as int),
                cluster_id: if f2.len() == 0 {
                    None
                } else {
                    Some(f2.subrange(4, f2.len() as int))
                },
            },
        )
    } else {
        None
    }
}

/// Every field offset of a well-formed table lies within the table.
proof fn lemma_offset_within(s: Seq<u8>, j: int)
    requires
        0 <= j <= table_field_count(s),
        forall|i: int|
            0 <= i < table_field_count(s) ==> #[trigger] table_offset(s, i) <= table_offset(
                s,
                i + 1,
            ),
    ensures
        table_offset(s, j) <= s.len(),
    decreases table_field_count(s) - j,
{
    if j < table_field_count(s) {
        assert(table_offset(s, j) <= table_offset(s, j + 1));
        lemma_offset_within(s, j + 1);
    }
}

/// Reads the size field at byte `pos`.
fn load_le32(s: &[u8], pos: usize) -> (r: usize)
    requires
        pos + 4 <= s@.len(),
    ensures
        r as int == read_le32(s@, pos as int),
{
    let rest = vstd::slice::slice_subrange(s, pos, s.len());
    let w = vstd::slice::slice_subrange(rest, 0, 4);
    assert(w@ == s@.subrange(pos as int, pos + 4));
    let v = u32_from_le_bytes(w);
    v as usize
}

/// The bytes of a length-prefixed vector, if `s` is one.
fn parse_fixvec(s: &[u8]) -> (r: Option<Vec<u8>>)
    ensures
        match r {
            Some(v) => is_fixvec(s@) && v@ == s@.subrange(4, s@.len() as int),
            None => !is_fixvec(s@),
        },
{
    if s.len() < NUMBER_SIZE {
        return None;
    }
    let n = load_le32(s, 0);
    if n != s.len() - NUMBER_SIZE {
        return None;
    }
    let body = vstd::slice::slice_subrange(s, NUMBER_SIZE, s.len());
    Some(vstd::slice::slice_to_vec(body))
}

/// Whether `s` is a table with at least `n` fields and a consistent header.
pub fn check_table(s: &[u8], n: usize) -> (r: bool)
    ensures
        r == is_table(s@, n as int),
{
    let len = s.len();
    if len < 2 * NUMBER_SIZE {
        return false;
    }
    if load_le32(s, 0) != len {
        return false;
    }
    let first = load_le32(s, NUMBER_SIZE);
    if first % NUMBER_SIZE != 0 || first < 2 * NUMBER_SIZE || first > len {
        return false;
    }
    let count = first / NUMBER_SIZE - 1;
    if count < n {
        return false;
    }
    // Offsets must not decrease, the last one against the table's end.
    let mut i: usize = 0;
    while i < count
        invariant
            count == table_field_count(s@),
            4 * (count + 1) == first,
            first <= len == s@.len(),
            i <= count,
            forall|j: int| 0 <= j < i ==> #[trigger] table_offset(s@, j) <= table_offset(s@, j + 1),
        decreases count - i,
    {
        let cur = field_offset(s, count, i);
        let next = field_offset(s, count, i + 1);
        if cur > next {
            assert(!(table_offset(s@, i as int) <= table_offset(s@, i + 1)));
            return false;
        }
        i = i + 1;
    }
    true
}

/// Start of field `i`, or the table's end past the last field.
fn field_offset(s: &[u8], count: usize, i: usize) -> (r: usize)
    requires
        count == table_field_count(s@),
        4 * (count + 1) <= s@.len(),
        i <= count,
    ensures
        r == table_offset(s@, i as int),
{
    if i < count {
        load_le32(s, NUMBER_SIZE + NUMBER_SIZE * i)
    } else {
        s.len()
    }
}

/// Reads collectible data, accepting fields appended after the third.
pub fn parse_spore(s: &[u8]) -> (r: Option<SporeData>)
    ensures
        match r {
            Some(d) => parse_spore_data(s@) == Some(d@),
            None => parse_spore_data(s@) is None,
        },
{
    if !check_table(s, 3) {
        return None;
    }
    let count = load_le32(s, NUMBER_SIZE) / NUMBER_SIZE - 1;
    let o0 = field_offset(s, count, 0);
    let o1 = field_offset(s, count, 1);
    let o2 = field_offset(s, count, 2);
    let o3 = field_offset(s, count, 3);
    proof {
        assert(table_offset(s@, 0) <= table_offset(s@, 1));
        assert(table_offset(s@, 1) <= table_offset(s@, 2));
        lemma_offset_within(s@, 3);
    }
    let content_type = parse_fixvec(vstd::slice::slice_subrange(s, o0, o1));
    let content = parse_fixvec(vstd::slice::slice_subrange(s, o1, o2));
    let f2 = vstd::slice::slice_subrange(s, o2, o3);
    match (content_type, content) {
        (Some(content_type), Some(content)) => {
            if f2.len() == 0 {
                Some(SporeData { content_type, content, cluster_id: None })
            } else {
                match parse_fixvec(f2) {
                    Some(cluster_id) => Some(
                        SporeData { content_type, content, cluster_id: Some(cluster_id) },
                    ),
                    None => None,
                }
            }
        },
        _ => None,
    }
}

/// Serialised form of collectible data.
pub fn encode_spore(d: &SporeData) -> (r: Vec<u8>)
    ensures
        r@ == spore_data_bytes(d@),
{
    let a = encode_fixvec(d.content_type.as_slice());
    let b = encode_fixvec(d.content.as_slice());
    let c = match &d.cluster_id {
        Some(id) => encode_fixvec(id.as_slice()),
        None => Vec::new(),
    };
    assert(c@ == opt_fixvec(d@.cluster_id));
    encode_table3(a.as_slice(), b.as_slice(), c.as_slice())
}

/// A size field written for `n` reads back as `n` when `n` fits 32 bits.
proof fn lemma_read_le32_written(pre: Seq<u8>, n: int, post: Seq<u8>)
    requires
        0 <= n < 0x1_0000_0000,
    ensures
        read_le32(pre + le32(n) + post, pre.len() as int) == n,
{
    vstd::bytes::lemma_auto_spec_u32_to_from_le_bytes();
    vstd::arithmetic::div_mod::lemma_small_mod(n as nat, 0x1_0000_0000nat);
    let s = pre + le32(n) + post;
    assert(s.subrange(pre.len() as int, pre.len() + 4int) =~= le32(n));
}

/// A length-prefixed vector is recognised and gives back its bytes.
proof fn lemma_fixvec_read(b: Seq<u8>)
    requires
        b.len() + 4 < 0x1_0000_0000,
    ensures
        is_fixvec(fixvec(b)),
        fixvec(b).subrange(4, fixvec(b).len() as int) == b,
{
    lemma_read_le32_written(Seq::empty(), b.len() as int, b);
    assert(Seq::<u8>::empty() + le32(b.len() as int) + b =~= fixvec(b));
    vstd::bytes::lemma_auto_spec_u32_to_from_le_bytes();
    assert(fixvec(b).subrange(4, fixvec(b).len() as int) =~= b);
}

/// Reading serialised collectible data gives back the fields written,
/// whenever the whole fits the 32-bit size field.
pub proof fn lemma_spore_data_round_trip(d: SporeDataModel)
    requires
        spore_data_bytes(d).len() < 0x1_0000_0000,
    ensures
        parse_spore_data(spore_data_bytes(d)) == Some(d),
{
    vstd::bytes::lemma_auto_spec_u32_to_from_le_bytes();
    let a = fixvec(d.content_type);
    let b = fixvec(d.content);
    let c = opt_fixvec(d.cluster_id);
    let s = spore_data_bytes(d);
    let h = 16int;
    let total = h + a.len() + b.len() + c.len();
    let l0 = le32(total);
    let l1 = le32(h);
    let l2 = le32(h + a.len());
    let l3 = le32(h + a.len() + b.len());
    assert(s == l0 + l1 + l2 + l3 + a + b + c);
    assert(s.len() == total);
    lemma_read_le32_written(Seq::empty(), total, l1 + l2 + l3 + a + b + c);
    assert(Seq::empty() + l0 + (l1 + l2 + l3 + a + b + c) =~= s);
    lemma_read_le32_written(l0, h, l2 + l3 + a + b + c);
    assert(l0 + l1 + (l2 + l3 + a + b + c) =~= s);
    lemma_read_le32_written(l0 + l1, h + a.len(), l3 + a + b + c);
    assert(l0 + l1 + l2 + (l3 + a + b + c) =~= s);
    lemma_read_le32_written(l0 + l1 + l2, h + a.len() + b.len(), a + b + c);
    assert(l0 + l1 + l2 + l3 + (a + b + c) =~= s);
    assert(table_field_count(s) == 3);
    assert(table_offset(s, 0) == h);
    assert(table_offset(s, 1) == h + a.len());
    assert(table_offset(s, 2) == h + a.len() + b.len());
    assert(table_offset(s, 3) == total);
    assert(is_table(s, 3));
    assert(table_field(s, 0) =~= a);
    assert(table_field(s, 1) =~= b);
    assert(table_field(s, 2) =~= c);
    lemma_fixvec_read(d.content_type);
    lemma_fixvec_read(d.content);
    match d.cluster_id {
        Some(id) => {
            lemma_fixvec_read(id);
        },
        None => {},
    }
}

} // verus!
