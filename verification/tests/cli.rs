use frame_assets::construct::{BlockType, ConstructionBenchmarkDescription, DatabaseType, KeyTypes};
use frame_assets::insert_key::{key_type_id_from_str, CliError, CryptoScheme, InsertKeyCmd, KeyTypeId};

#[test]
fn a_key_type_is_four_bytes() {
    assert_eq!(key_type_id_from_str("gran"), Ok(KeyTypeId(*b"gran")));
    assert_eq!(key_type_id_from_str("test"), Ok(KeyTypeId(*b"test")));
    assert_eq!(key_type_id_from_str("imo"), Err(()));
    assert_eq!(key_type_id_from_str("imonx"), Err(()));
    assert_eq!(key_type_id_from_str(""), Err(()));
    // Two two-byte characters make four bytes.
    assert_eq!(key_type_id_from_str("éé"), Ok(KeyTypeId([0xc3, 0xa9, 0xc3, 0xa9])));
}

#[test]
fn the_command_checks_its_key_type() {
    let cmd = InsertKeyCmd::new(Some("//Alice".to_string()), "test".to_string(), CryptoScheme::Sr25519);
    assert_eq!(cmd.key_type_id(), Ok(KeyTypeId(*b"test")));
    assert_eq!(cmd.suri(), Some("//Alice"));
    assert_eq!(cmd.key_type(), "test");
    assert_eq!(cmd.scheme, CryptoScheme::Sr25519);
    let bad = InsertKeyCmd::new(None, "babe!".to_string(), CryptoScheme::Ed25519);
    assert_eq!(bad.key_type_id(), Err(CliError::KeyTypeInvalid));
    assert_eq!(bad.suri(), None);
}

fn description(block_type: BlockType, database_type: DatabaseType) -> ConstructionBenchmarkDescription {
    ConstructionBenchmarkDescription {
        key_types: KeyTypes::Sr25519,
        block_type,
        size: "small".to_string(),
        database_type,
    }
}

#[test]
fn the_benchmark_path_names_its_parameters() {
    let d = description(BlockType::RandomTransfersKeepAlive, DatabaseType::RocksDb);
    assert_eq!(d.path(), vec!["node", "proposer", "sr25519", "transfer", "rocksdb", "small"]);
    let d = ConstructionBenchmarkDescription {
        key_types: KeyTypes::Ed25519,
        block_type: BlockType::RandomTransfersReaping,
        size: "full".to_string(),
        database_type: DatabaseType::ParityDb,
    };
    assert_eq!(d.path(), vec!["node", "proposer", "ed25519", "transfer_reaping", "paritydb", "full"]);
    let d = description(BlockType::Noop, DatabaseType::RocksDb);
    assert_eq!(d.path()[3], "noop");
}

#[test]
fn the_benchmark_name_names_its_parameters() {
    let d = description(BlockType::RandomTransfersKeepAlive, DatabaseType::RocksDb);
    assert_eq!(d.name(), "Block construction (RandomTransfersKeepAlive/small, RocksDb backend)");
    let d = description(BlockType::Noop, DatabaseType::ParityDb);
    assert_eq!(d.name(), "Block construction (Noop/small, ParityDb backend)");
    let d = description(BlockType::RandomTransfersReaping, DatabaseType::RocksDb);
    assert_eq!(d.name(), "Block construction (RandomTransfersReaping/small, RocksDb backend)");
}
