use dao_certificate::calculator::{
    create_depositer_lock_proxy_cell, dao_deposit_with_certificate, dao_withdraw_with_certificate,
    spore_mint_with_certificate, type_burn_lock_for,
};
use dao_certificate::cell::{Cell, CellDep, CellInput, Header, OutPoint, ResolvedInput, Script, Transaction};
use dao_certificate::certificate_type::{classify, verify_certificate, verify_mint, ScriptError, Stage};
use dao_certificate::check_lock::{verify_certificate_check, CheckLockError};
use dao_certificate::config::{AssembleError, ChainConfig, DeploymentRecord, DeploymentTable, Network};
use dao_certificate::encoding::script_hash;
use dao_certificate::protocol::ProtocolCodes;
use dao_certificate::spore::{encode_spore, parse_spore, SporeData};

fn bytes32(b: u8) -> Vec<u8> {
    vec![b; 32]
}

fn record(b: u8) -> DeploymentRecord {
    DeploymentRecord { tx_hash: bytes32(b), out_index: 0, code_hash: bytes32(b + 100), hash_type: 1 }
}

fn chain(network: Network) -> ChainConfig {
    ChainConfig {
        network,
        deployments: DeploymentTable {
            mainnet_certificate: None,
            testnet_certificate: Some(record(1)),
            mainnet_check: None,
            testnet_check: Some(record(2)),
            fake_certificate: record(3),
            fake_check: record(4),
        },
        dao: record(5),
        type_burn: record(6),
        spore: record(7),
        lock_proxy: record(8),
    }
}

fn codes(config: &ChainConfig) -> ProtocolCodes {
    ProtocolCodes {
        dao_type: config.dao.code_hash.clone(),
        spore_type: config.spore.code_hash.clone(),
        type_burn: config.type_burn.code_hash.clone(),
        certificate_type: config.deployments.fake_certificate.code_hash.clone(),
    }
}

fn depositer() -> Script {
    Script::new(bytes32(9), 1, vec![0])
}

fn input(tag: u8, cell: Cell) -> ResolvedInput {
    ResolvedInput {
        input: CellInput { since: 0, previous_output: OutPoint { tx_hash: bytes32(tag), index: 0 } },
        cell,
    }
}

fn plain_cell(lock: Script) -> Cell {
    Cell { capacity: 1000, lock, type_script: None, data: vec![] }
}

fn deposit_tx(capacity: u64) -> (Transaction, Script) {
    let config = chain(Network::Fake);
    let mut tx = Transaction::new();
    tx.push_input(input(40, plain_cell(depositer())));
    let outs = match dao_deposit_with_certificate(&mut tx, &config, depositer(), capacity) {
        Ok(o) => o,
        Err(e) => panic!("deposit failed: {:?}", e),
    };
    let cert = tx.outputs[outs.certificate_index].type_script.as_ref().unwrap().copy();
    (tx, cert)
}

fn certificate_script() -> Script {
    chain(Network::Fake).deployments.fake_certificate.script(vec![0u8; 32])
}

fn proxy_cell(config: &ChainConfig) -> ResolvedInput {
    let check = config.deployments.fake_check.script(vec![]);
    let marker = config.lock_proxy.script(script_hash(&depositer()));
    input(41, Cell { capacity: 1000, lock: check, type_script: Some(marker), data: vec![] })
}

fn certificate_cell(lock: Script) -> ResolvedInput {
    input(
        42,
        Cell {
            capacity: 1000,
            lock,
            type_script: Some(certificate_script()),
            data: 1000u64.to_le_bytes().to_vec(),
        },
    )
}

fn deposit_header() -> Header {
    Header { hash: bytes32(50), number: 20 }
}

fn cluster_dep() -> CellDep {
    CellDep { out_point: OutPoint { tx_hash: bytes32(51), index: 0 }, dep_type: 0 }
}

fn mint_tx(cluster_id: Vec<u8>) -> (Transaction, dao_certificate::operation::MintOutputs) {
    let config = chain(Network::Fake);
    let mut tx = Transaction::new();
    let r = spore_mint_with_certificate(
        &mut tx,
        &config,
        &depositer(),
        cluster_id,
        proxy_cell(&config),
        certificate_cell(depositer()),
        deposit_header(),
        cluster_dep(),
    );
    match r {
        Ok(o) => (tx, o),
        Err(e) => panic!("mint failed: {:?}", e),
    }
}

#[test]
fn test_dao_deposit_with_certificate() {
    let (tx, cert) = deposit_tx(1000);
    let config = chain(Network::Fake);
    assert_eq!(classify(&tx, &cert), Ok(Stage::Deposit));
    assert_eq!(verify_certificate(&tx, &cert, &codes(&config)), Ok(()));
}

#[test]
fn deposit_of_1000_records_little_endian_capacity_and_burn_link() {
    let (tx, cert) = deposit_tx(1000);
    let config = chain(Network::Fake);
    assert_eq!(tx.outputs.len(), 2);
    assert_eq!(tx.outputs[0].data, vec![0xE8, 0x03, 0, 0, 0, 0, 0, 0]);
    let deposit = &tx.outputs[1];
    assert_eq!(deposit.capacity, 1000);
    assert_eq!(deposit.data, vec![0u8; 8]);
    assert_eq!(deposit.lock.code_hash, config.type_burn.code_hash);
    assert_eq!(deposit.lock.args, script_hash(&cert));
    assert_eq!(deposit.type_script.as_ref().unwrap().code_hash, config.dao.code_hash);
    // The certificate's argument is the type-id of the first input and index 0.
    let expected = dao_certificate::protocol::calc_type_id(&tx.inputs[0].input, 0);
    assert_eq!(cert.args, expected);
    assert_eq!(cert.code_hash, config.deployments.fake_certificate.code_hash);
    assert_eq!(tx.cell_deps.len(), 2);
}

#[test]
fn deposit_type_id_depends_on_first_input_and_index() {
    let (tx, cert) = deposit_tx(1000);
    let at_one = dao_certificate::protocol::calc_type_id(&tx.inputs[0].input, 1);
    assert_ne!(cert.args, at_one);
    let other = CellInput { since: 0, previous_output: OutPoint { tx_hash: bytes32(41), index: 0 } };
    assert_ne!(cert.args, dao_certificate::protocol::calc_type_id(&other, 0));
    assert_eq!(cert.args.len(), 32);
}

#[test]
fn deposit_with_forged_type_id_is_rejected() {
    let (mut tx, _) = deposit_tx(1000);
    let config = chain(Network::Fake);
    let forged = config.deployments.fake_certificate.script(vec![0u8; 32]);
    tx.outputs[0].type_script = Some(forged.copy());
    assert_eq!(verify_certificate(&tx, &forged, &codes(&config)), Err(ScriptError::UnexpectedTypeId));
}

#[test]
fn deposit_with_changed_first_input_is_rejected() {
    let (mut tx, cert) = deposit_tx(1000);
    let config = chain(Network::Fake);
    tx.inputs[0].input.since = 1;
    assert_eq!(verify_certificate(&tx, &cert, &codes(&config)), Err(ScriptError::UnexpectedTypeId));
}

#[test]
fn deposit_capacity_off_by_one_is_rejected() {
    let (mut tx, cert) = deposit_tx(1000);
    let config = chain(Network::Fake);
    tx.outputs[1].capacity = 1001;
    assert_eq!(verify_certificate(&tx, &cert, &codes(&config)), Err(ScriptError::DaoCapacityNotMatch));
}

#[test]
fn deposit_without_deposit_cell_is_rejected() {
    let (mut tx, cert) = deposit_tx(1000);
    let config = chain(Network::Fake);
    tx.outputs.pop();
    assert_eq!(verify_certificate(&tx, &cert, &codes(&config)), Err(ScriptError::DaoCellNotFound));
}

#[test]
fn deposit_with_short_certificate_data_is_rejected() {
    let (mut tx, cert) = deposit_tx(1000);
    let config = chain(Network::Fake);
    tx.outputs[0].data = vec![0xE8, 0x03];
    assert_eq!(
        verify_certificate(&tx, &cert, &codes(&config)),
        Err(ScriptError::InvalidCertificateDataFormat)
    );
}

#[test]
fn deposit_not_burn_linked_is_rejected() {
    let (mut tx, cert) = deposit_tx(1000);
    let config = chain(Network::Fake);
    tx.outputs[1].lock = depositer();
    assert_eq!(verify_certificate(&tx, &cert, &codes(&config)), Err(ScriptError::DaoCellNotLocked));
    let (mut tx, cert) = deposit_tx(1000);
    tx.outputs[1].lock.args = bytes32(0);
    assert_eq!(verify_certificate(&tx, &cert, &codes(&config)), Err(ScriptError::DaoCellNotLocked));
}

#[test]
fn certificate_absent_everywhere_is_unknown_pattern() {
    let (tx, _) = deposit_tx(1000);
    let config = chain(Network::Fake);
    let stranger = config.deployments.fake_certificate.script(bytes32(77));
    assert_eq!(classify(&tx, &stranger), Err(ScriptError::UnknownPattern));
    assert_eq!(verify_certificate(&tx, &stranger, &codes(&config)), Err(ScriptError::UnknownPattern));
}

#[test]
fn deposit_without_inputs_cannot_be_assembled() {
    let config = chain(Network::Fake);
    let mut tx = Transaction::new();
    let r = dao_deposit_with_certificate(&mut tx, &config, depositer(), 1000);
    assert!(matches!(r, Err(AssembleError::CellNotFound)));
    assert_eq!(tx.outputs.len(), 0);
    assert_eq!(tx.cell_deps.len(), 0);
}

#[test]
fn deposit_on_network_without_deployment_fails() {
    let config = chain(Network::Mainnet);
    let mut tx = Transaction::new();
    tx.push_input(input(40, plain_cell(depositer())));
    let r = dao_deposit_with_certificate(&mut tx, &config, depositer(), 1000);
    assert!(matches!(r, Err(AssembleError::DeploymentNotFound)));
    let config = chain(Network::Testnet);
    let r = dao_deposit_with_certificate(&mut tx, &config, depositer(), 1000);
    assert!(r.is_ok());
    assert_eq!(tx.outputs[0].type_script.as_ref().unwrap().code_hash, bytes32(101));
}

#[test]
fn test_spore_mint_with_certificate() {
    let config = chain(Network::Fake);
    let (tx, outs) = mint_tx(bytes32(60));
    let cert = certificate_script();
    assert_eq!(classify(&tx, &cert), Ok(Stage::Mint));
    assert_eq!(verify_certificate(&tx, &cert, &codes(&config)), Ok(()));
    assert_eq!(verify_certificate_check(&tx, &codes(&config)), Ok(()));
    assert_eq!(outs.spore_index, 1);
    assert_eq!(outs.certificate_index, 2);
}

#[test]
fn mint_records_capacity_and_deposit_block() {
    let config = chain(Network::Fake);
    let cluster = bytes32(60);
    let (tx, outs) = mint_tx(cluster.clone());
    let spore = &tx.outputs[outs.spore_index];
    let data = parse_spore(&spore.data).unwrap();
    let mut expected = vec![0xE8, 0x03, 0, 0, 0, 0, 0, 0];
    expected.extend_from_slice(&[0x14, 0, 0, 0, 0, 0, 0, 0]);
    assert_eq!(data.content, expected);
    assert_eq!(data.content_type, b"dob/1".to_vec());
    assert_eq!(data.cluster_id, Some(cluster));
    assert_eq!(spore.lock.args, depositer().args);
    let cert_out = &tx.outputs[outs.certificate_index];
    assert_eq!(cert_out.lock.code_hash, config.type_burn.code_hash);
    assert_eq!(&cert_out.lock.args, &script_hash(spore.type_script.as_ref().unwrap()));
    assert_eq!(cert_out.data, 1000u64.to_le_bytes().to_vec());
    assert_eq!(tx.header_deps.len(), 1);
    assert_eq!(tx.header_deps[0].number, 20);
    // The authorisation cell is spent and given back.
    assert_eq!(tx.inputs.len(), 2);
    assert_eq!(tx.outputs[0].type_script.as_ref().unwrap().args, script_hash(&depositer()));
}

#[test]
fn minting_a_chained_certificate_is_a_double_mint() {
    let config = chain(Network::Fake);
    let (mut tx, _) = mint_tx(bytes32(60));
    let prior = config.spore.script(bytes32(70));
    tx.inputs[1].cell.lock = type_burn_lock_for(&config, &prior);
    let cert = certificate_script();
    assert_eq!(verify_certificate(&tx, &cert, &codes(&config)), Err(ScriptError::UnsupportedDoubleMint));
    assert_eq!(verify_mint(&tx, &cert, &codes(&config)), Err(ScriptError::UnsupportedDoubleMint));
}

#[test]
fn mint_without_collectible_is_rejected() {
    let config = chain(Network::Fake);
    let (mut tx, outs) = mint_tx(bytes32(60));
    tx.outputs[outs.spore_index].type_script = None;
    assert_eq!(
        verify_certificate(&tx, &certificate_script(), &codes(&config)),
        Err(ScriptError::SporeCellNotFound)
    );
}

#[test]
fn mint_not_chained_to_collectible_is_rejected() {
    let config = chain(Network::Fake);
    let (mut tx, outs) = mint_tx(bytes32(60));
    tx.outputs[outs.certificate_index].lock = depositer();
    assert_eq!(
        verify_certificate(&tx, &certificate_script(), &codes(&config)),
        Err(ScriptError::SporeCellNotLocked)
    );
}

#[test]
fn mint_with_malformed_collectible_data_is_rejected() {
    let config = chain(Network::Fake);
    let (mut tx, outs) = mint_tx(bytes32(60));
    tx.outputs[outs.spore_index].data.pop();
    assert_eq!(
        verify_certificate(&tx, &certificate_script(), &codes(&config)),
        Err(ScriptError::InvalidSporeData)
    );
}

fn with_spore_data(tx: &mut Transaction, index: usize, data: SporeData) {
    tx.outputs[index].data = encode_spore(&data);
}

#[test]
fn mint_with_wrong_content_type_or_cluster_or_content_is_rejected() {
    let config = chain(Network::Fake);
    let cert = certificate_script();
    let mut content = 1000u64.to_le_bytes().to_vec();
    content.extend_from_slice(&20u64.to_le_bytes());

    let (mut tx, outs) = mint_tx(bytes32(60));
    let d = SporeData { content_type: b"dob/0".to_vec(), content: content.clone(), cluster_id: Some(bytes32(60)) };
    with_spore_data(&mut tx, outs.spore_index, d);
    assert_eq!(verify_certificate(&tx, &cert, &codes(&config)), Err(ScriptError::UnexpectedSporeDataFormat));

    let (mut tx, outs) = mint_tx(bytes32(60));
    let d = SporeData { content_type: b"dob/1".to_vec(), content: content.clone(), cluster_id: None };
    with_spore_data(&mut tx, outs.spore_index, d);
    assert_eq!(verify_certificate(&tx, &cert, &codes(&config)), Err(ScriptError::UnexpectedSporeDataFormat));

    let (mut tx, outs) = mint_tx(bytes32(60));
    let mut other = content.clone();
    other[8] = 21;
    let d = SporeData { content_type: b"dob/1".to_vec(), content: other, cluster_id: Some(bytes32(60)) };
    with_spore_data(&mut tx, outs.spore_index, d);
    assert_eq!(verify_certificate(&tx, &cert, &codes(&config)), Err(ScriptError::UnexpectedSporeDataFormat));

    let (mut tx, outs) = mint_tx(bytes32(60));
    let d = SporeData { content_type: b"dob/1".to_vec(), content, cluster_id: Some(bytes32(60)) };
    with_spore_data(&mut tx, outs.spore_index, d);
    assert_eq!(verify_certificate(&tx, &cert, &codes(&config)), Ok(()));
}

#[test]
fn mint_with_short_certificate_data_is_rejected() {
    let config = chain(Network::Fake);
    let (mut tx, outs) = mint_tx(bytes32(60));
    tx.outputs[outs.certificate_index].data = vec![1, 2, 3];
    assert_eq!(
        verify_certificate(&tx, &certificate_script(), &codes(&config)),
        Err(ScriptError::InvalidCertificateDataFormat)
    );
}

#[test]
fn mint_assembly_checks_the_cells_found() {
    let config = chain(Network::Fake);
    let mut tx = Transaction::new();
    let wrong_proxy = input(41, plain_cell(depositer()));
    let r = spore_mint_with_certificate(
        &mut tx, &config, &depositer(), bytes32(60), wrong_proxy,
        certificate_cell(depositer()), deposit_header(), cluster_dep(),
    );
    assert!(matches!(r, Err(AssembleError::CellNotFound)));
    let stranger = Script::new(bytes32(10), 1, vec![]);
    let r = spore_mint_with_certificate(
        &mut tx, &config, &depositer(), bytes32(60), proxy_cell(&config),
        certificate_cell(stranger), deposit_header(), cluster_dep(),
    );
    assert!(matches!(r, Err(AssembleError::CellNotFound)));
    let mut short = certificate_cell(depositer());
    short.cell.data = vec![1];
    let r = spore_mint_with_certificate(
        &mut tx, &config, &depositer(), bytes32(60), proxy_cell(&config),
        short, deposit_header(), cluster_dep(),
    );
    assert!(matches!(r, Err(AssembleError::CellDataMalformed)));
    assert_eq!(tx.inputs.len(), 0);
}

#[test]
fn check_lock_requires_a_certificate_input() {
    let config = chain(Network::Fake);
    let mut tx = Transaction::new();
    tx.push_input(proxy_cell(&config));
    assert_eq!(verify_certificate_check(&tx, &codes(&config)), Err(CheckLockError::NoDaoCertificateFound));
    tx.push_input(certificate_cell(depositer()));
    assert_eq!(verify_certificate_check(&tx, &codes(&config)), Ok(()));
}

#[test]
fn lock_proxy_cell_is_guarded_by_the_check_lock() {
    let config = chain(Network::Fake);
    let mut tx = Transaction::new();
    let i = create_depositer_lock_proxy_cell(&mut tx, &config, &depositer()).unwrap();
    assert_eq!(i, 0);
    let cell = &tx.outputs[0];
    assert_eq!(cell.lock.code_hash, config.deployments.fake_check.code_hash);
    assert!(cell.lock.args.is_empty());
    let marker = cell.type_script.as_ref().unwrap();
    assert_eq!(marker.code_hash, config.lock_proxy.code_hash);
    assert_eq!(marker.args, script_hash(&depositer()));
    assert_eq!(tx.cell_deps.len(), 2);
    let mut tx = Transaction::new();
    let r = create_depositer_lock_proxy_cell(&mut tx, &chain(Network::Mainnet), &depositer());
    assert_eq!(r, Err(AssembleError::DeploymentNotFound));
}

fn chained_cells(config: &ChainConfig, spore_id: &Vec<u8>) -> (ResolvedInput, ResolvedInput, ResolvedInput) {
    let spore_type = config.spore.script(spore_id.clone());
    let data = encode_spore(&SporeData {
        content_type: b"dob/1".to_vec(),
        content: b"hello, spore".to_vec(),
        cluster_id: None,
    });
    let spore = input(
        43,
        Cell { capacity: 1000, lock: depositer(), type_script: Some(spore_type.copy()), data },
    );
    let cert_type = certificate_script();
    let certificate = input(
        44,
        Cell {
            capacity: 1000,
            lock: type_burn_lock_for(config, &spore_type),
            type_script: Some(cert_type.copy()),
            data: 1000u64.to_le_bytes().to_vec(),
        },
    );
    let deposit = input(
        45,
        Cell {
            capacity: 1000,
            lock: type_burn_lock_for(config, &cert_type),
            type_script: Some(config.dao.script(vec![])),
            data: 10086u64.to_le_bytes().to_vec(),
        },
    );
    (spore, certificate, deposit)
}

#[test]
fn test_dao_withdraw_with_certificate() {
    let config = chain(Network::Fake);
    let spore_id = bytes32(80);
    let (spore, certificate, deposit) = chained_cells(&config, &spore_id);
    let mut tx = Transaction::new();
    let r = dao_withdraw_with_certificate(&mut tx, &config, &depositer(), &spore_id, spore, certificate, deposit);
    let ins = match r {
        Ok(i) => i,
        Err(e) => panic!("withdraw failed: {:?}", e),
    };
    assert_eq!((ins.spore_index, ins.certificate_index, ins.deposit_index), (0, 1, 2));
    tx.push_output(plain_cell(depositer()));
    let cert = certificate_script();
    assert_eq!(classify(&tx, &cert), Ok(Stage::Withdraw));
    assert_eq!(verify_certificate(&tx, &cert, &codes(&config)), Ok(()));
}

#[test]
fn withdraw_of_any_shape_passes_the_certificate_predicate() {
    let config = chain(Network::Fake);
    let mut tx = Transaction::new();
    tx.push_input(certificate_cell(depositer()));
    assert_eq!(verify_certificate(&tx, &certificate_script(), &codes(&config)), Ok(()));
}

#[test]
fn withdraw_out_of_chain_order_cannot_be_assembled() {
    let config = chain(Network::Fake);
    let spore_id = bytes32(80);
    let (spore, certificate, deposit) = chained_cells(&config, &spore_id);
    let mut tx = Transaction::new();
    let r = dao_withdraw_with_certificate(&mut tx, &config, &depositer(), &spore_id, spore, deposit, certificate);
    assert!(matches!(r, Err(AssembleError::CellNotFound)));
    assert_eq!(tx.inputs.len(), 0);
    let (spore, certificate, deposit) = chained_cells(&config, &spore_id);
    let stranger = Script::new(bytes32(10), 1, vec![]);
    let r = dao_withdraw_with_certificate(&mut tx, &config, &stranger, &spore_id, spore, certificate, deposit);
    assert!(matches!(r, Err(AssembleError::CellNotFound)));
    let (spore, certificate, deposit) = chained_cells(&config, &spore_id);
    let r = dao_withdraw_with_certificate(&mut tx, &config, &depositer(), &bytes32(81), spore, certificate, deposit);
    assert!(matches!(r, Err(AssembleError::CellNotFound)));
}
