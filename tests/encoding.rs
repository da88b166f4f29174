use dao_certificate::cell::{CellInput, OutPoint, Script};
use dao_certificate::certificate_type::read_capacity;
use dao_certificate::config::{dao_certificate_check_deployment, dao_certificate_deployment, AssembleError, DeploymentRecord, DeploymentTable, Network};
use dao_certificate::encoding::{cell_input_to_bytes, encode_fixvec, script_hash, script_to_bytes};
use dao_certificate::protocol::{calc_type_id, make_dob_content};
use dao_certificate::spore::{check_table, encode_spore, parse_spore, SporeData};

fn blake2b_256(data: &[u8]) -> Vec<u8> {
    let mut hasher = blake2b_ref::Blake2bBuilder::new(32).personal(b"ckb-default-hash").build();
    hasher.update(data);
    let mut out = [0u8; 32];
    hasher.finalize(&mut out);
    out.to_vec()
}

#[test]
fn script_serialises_as_a_three_field_table() {
    let s = Script::new(vec![0xAA; 32], 1, vec![1, 2, 3]);
    let b = script_to_bytes(&s);
    let mut expected = vec![56, 0, 0, 0, 16, 0, 0, 0, 48, 0, 0, 0, 49, 0, 0, 0];
    expected.extend_from_slice(&[0xAA; 32]);
    expected.push(1);
    expected.extend_from_slice(&[3, 0, 0, 0, 1, 2, 3]);
    assert_eq!(b, expected);
}

#[test]
fn script_hash_is_the_personalised_digest_of_the_serialised_script() {
    let s = Script::new(vec![0xAA; 32], 1, vec![1, 2, 3]);
    let h = script_hash(&s);
    assert_eq!(h.len(), 32);
    assert_eq!(h, blake2b_256(&script_to_bytes(&s)));
    assert_ne!(h, script_to_bytes(&s));
    let t = Script::new(vec![0xAA; 32], 1, vec![1, 2, 4]);
    assert_ne!(h, script_hash(&t));
}

#[test]
fn empty_input_hashes_to_the_known_digest() {
    let expected: Vec<u8> = vec![
        0x44, 0xf4, 0xc6, 0x97, 0x44, 0xd5, 0xf8, 0xc5, 0x5d, 0x64, 0x20, 0x62, 0x94, 0x9d, 0xca,
        0xe4, 0x9b, 0xc4, 0xe7, 0xef, 0x43, 0xd3, 0x88, 0xc5, 0xa1, 0x2f, 0x42, 0xb5, 0x63, 0x3d,
        0x16, 0x3e,
    ];
    assert_eq!(blake2b_256(&[]), expected);
}

#[test]
fn input_serialises_since_then_out_point() {
    let i = CellInput { since: 5, previous_output: OutPoint { tx_hash: vec![7; 32], index: 2 } };
    let b = cell_input_to_bytes(&i);
    let mut expected = vec![5, 0, 0, 0, 0, 0, 0, 0];
    expected.extend_from_slice(&[7; 32]);
    expected.extend_from_slice(&[2, 0, 0, 0]);
    assert_eq!(b, expected);
}

#[test]
fn type_id_hashes_input_and_index() {
    let i = CellInput { since: 0, previous_output: OutPoint { tx_hash: vec![7; 32], index: 0 } };
    let mut pre = cell_input_to_bytes(&i);
    pre.extend_from_slice(&3u64.to_le_bytes());
    assert_eq!(calc_type_id(&i, 3), blake2b_256(&pre));
}

#[test]
fn fixvec_prefixes_length() {
    assert_eq!(encode_fixvec(&[]), vec![0, 0, 0, 0]);
    assert_eq!(encode_fixvec(&[9, 8]), vec![2, 0, 0, 0, 9, 8]);
}

#[test]
fn dob_content_is_two_little_endian_numbers() {
    let c = make_dob_content(1000, 20);
    assert_eq!(c, vec![0xE8, 0x03, 0, 0, 0, 0, 0, 0, 0x14, 0, 0, 0, 0, 0, 0, 0]);
}

#[test]
fn capacity_is_read_from_the_first_eight_bytes() {
    assert_eq!(read_capacity(&vec![0xE8, 0x03, 0, 0, 0, 0, 0, 0]), Some(1000));
    assert_eq!(read_capacity(&vec![0xE8, 0x03, 0, 0, 0, 0, 0, 0, 9]), Some(1000));
    assert_eq!(read_capacity(&vec![0xE8, 0x03, 0, 0, 0, 0, 0]), None);
    assert_eq!(read_capacity(&vec![0xFF; 8]), Some(u64::MAX));
}

fn sample() -> SporeData {
    SporeData { content_type: b"dob/1".to_vec(), content: vec![1, 2, 3], cluster_id: Some(vec![4; 32]) }
}

#[test]
fn spore_data_round_trips() {
    let b = encode_spore(&sample());
    let d = parse_spore(&b).unwrap();
    assert_eq!(d.content_type, b"dob/1".to_vec());
    assert_eq!(d.content, vec![1, 2, 3]);
    assert_eq!(d.cluster_id, Some(vec![4; 32]));
    let none = SporeData { content_type: vec![], content: vec![], cluster_id: None };
    let b = encode_spore(&none);
    assert_eq!(b, vec![24, 0, 0, 0, 16, 0, 0, 0, 20, 0, 0, 0, 24, 0, 0, 0, 0, 0, 0, 0, 0, 0, 0, 0]);
    let d = parse_spore(&b).unwrap();
    assert!(d.content_type.is_empty() && d.content.is_empty() && d.cluster_id.is_none());
}

#[test]
fn spore_data_with_appended_field_is_accepted() {
    // content type "a", content "b", no cluster, then one more field "c".
    let b = vec![
        30, 0, 0, 0, 20, 0, 0, 0, 25, 0, 0, 0, 30, 0, 0, 0, 30, 0, 0, 0, 1, 0, 0, 0, b'a', 1, 0,
        0, 0, b'b',
    ];
    assert!(check_table(&b, 3));
    let d = parse_spore(&b).unwrap();
    assert_eq!(d.content_type, b"a".to_vec());
    assert_eq!(d.content, b"b".to_vec());
    assert!(d.cluster_id.is_none());
}

#[test]
fn malformed_spore_data_is_refused() {
    let good = encode_spore(&sample());
    assert!(parse_spore(&[]).is_none());
    assert!(parse_spore(&good[..good.len() - 1]).is_none());
    let mut wrong_total = good.clone();
    wrong_total[0] ^= 1;
    assert!(parse_spore(&wrong_total).is_none());
    let mut wrong_inner = good.clone();
    wrong_inner[16] = 9;
    assert!(parse_spore(&wrong_inner).is_none());
    let mut decreasing = good.clone();
    decreasing[8] = 40;
    assert!(parse_spore(&decreasing).is_none());
    // Two fields only.
    let two = vec![20, 0, 0, 0, 12, 0, 0, 0, 16, 0, 0, 0, 0, 0, 0, 0, 0, 0, 0, 0];
    assert!(!check_table(&two, 3));
    assert!(check_table(&two, 2));
    assert!(parse_spore(&two).is_none());
}

fn record(b: u8) -> DeploymentRecord {
    DeploymentRecord { tx_hash: vec![b; 32], out_index: b as u32, code_hash: vec![b + 100; 32], hash_type: 1 }
}

#[test]
fn deployments_resolve_per_network() {
    let table = DeploymentTable {
        mainnet_certificate: Some(record(1)),
        testnet_certificate: None,
        mainnet_check: None,
        testnet_check: Some(record(2)),
        fake_certificate: record(3),
        fake_check: record(4),
    };
    assert_eq!(dao_certificate_deployment(&table, Network::Mainnet).unwrap().out_index, 1);
    assert!(matches!(dao_certificate_deployment(&table, Network::Testnet), Err(AssembleError::DeploymentNotFound)));
    assert_eq!(dao_certificate_deployment(&table, Network::Fake).unwrap().tx_hash, vec![3; 32]);
    assert!(matches!(dao_certificate_check_deployment(&table, Network::Mainnet), Err(AssembleError::DeploymentNotFound)));
    assert_eq!(dao_certificate_check_deployment(&table, Network::Testnet).unwrap().code_hash, vec![102; 32]);
    assert_eq!(dao_certificate_check_deployment(&table, Network::Fake).unwrap().out_index, 4);
}
