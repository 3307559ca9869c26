//! The description of the block construction benchmark: which keys, block
//! content, size and database it runs with, and the path and name under
//! which it is reported.

use vstd::prelude::*;

verus! {

/// The type of the keys that sign the benchmark's transactions.
#[derive(Debug, Clone, Copy, PartialEq, Eq, Structural)]
pub enum KeyTypes {
    /// Sr25519 keys.
    Sr25519,
    /// Ed25519 keys.
    Ed25519,
}

/// What the benchmark's blocks hold.
#[derive(Debug, Clone, Copy, PartialEq, Eq, Structural)]
pub enum BlockType {
    /// Random transfers that keep the sender alive.
    RandomTransfersKeepAlive,
    /// Random transfers that reap the sender.
    RandomTransfersReaping,
    /// Transactions that do nothing.
    Noop,
}

/// The database that the benchmark's node runs on.
#[derive(Debug, Clone, Copy, PartialEq, Eq, Structural)]
pub enum DatabaseType {
    /// RocksDB.
    RocksDb,
    /// ParityDB.
    ParityDb,
}

/// The path segment of a key type.
pub open spec fn key_types_segment(k: KeyTypes) -> Seq<char> {
    match k {
        KeyTypes::Sr25519 => "sr25519"@,
        KeyTypes::Ed25519 => "ed25519"@,
    }
}

/// The path segment of a block type.
pub open spec fn block_type_segment(b: BlockType) -> Seq<char> {
    match b {
        BlockType::RandomTransfersKeepAlive => "transfer"@,
        BlockType::RandomTransfersReaping => "transfer_reaping"@,
        BlockType::Noop => "noop"@,
    }
}

/// The path segment of a database type.
pub open spec fn database_type_segment(d: DatabaseType) -> Seq<char> {
    match d {
        DatabaseType::RocksDb => "rocksdb"@,
        DatabaseType::ParityDb => "paritydb"@,
    }
}

/// How a block type is written in the benchmark's name: its variant's name.
pub open spec fn block_type_label(b: BlockType) -> Seq<char> {
    match b {
        BlockType::RandomTransfersKeepAlive => "RandomTransfersKeepAlive"@,
        BlockType::RandomTransfersReaping => "RandomTransfersReaping"@,
        BlockType::Noop => "Noop"@,
    }
}

/// How a database type is written in the benchmark's name: its variant's
/// name.
pub open spec fn database_type_label(d: DatabaseType) -> Seq<char> {
    match d {
        DatabaseType::RocksDb => "RocksDb"@,
        DatabaseType::ParityDb => "ParityDb"@,
    }
}

/// The characters of each string of a sequence.
pub open spec fn string_views(v: Seq<String>) -> Seq<Seq<char>> {
    v.map_values(|s: String| s@)
}

/// The block construction benchmark as it is described before it is set up.
pub struct ConstructionBenchmarkDescription {
    /// The type of the signing keys.
    pub key_types: KeyTypes,
    /// What the blocks hold.
    pub block_type: BlockType,
    /// The size of the blocks, as the benchmark writes it.
    pub size: String,
    /// The database.
    pub database_type: DatabaseType,
}

fn key_types_segment_of(k: KeyTypes) -> (r: String)
    ensures
        r@ == key_types_segment(k),
{
    match k {
        KeyTypes::Sr25519 => String::from_str("sr25519"),
        KeyTypes::Ed25519 => String::from_str("ed25519"),
    }
}

fn block_type_segment_of(b: BlockType) -> (r: String)
    ensures
        r@ == block_type_segment(b),
{
    match b {
        BlockType::RandomTransfersKeepAlive => String::from_str("transfer"),
        BlockType::RandomTransfersReaping => String::from_str("transfer_reaping"),
        BlockType::Noop => String::from_str("noop"),
    }
}

fn database_type_segment_of(d: DatabaseType) -> (r: String)
    ensures
        r@ == database_type_segment(d),
{
    match d {
        DatabaseType::RocksDb => String::from_str("rocksdb"),
        DatabaseType::ParityDb => String::from_str("paritydb"),
    }
}

fn block_type_label_of(b: BlockType) -> (r: &'static str)
    ensures
        r@ == block_type_label(b),
{
    match b {
        BlockType::RandomTransfersKeepAlive => "RandomTransfersKeepAlive",
        BlockType::RandomTransfersReaping => "RandomTransfersReaping",
        BlockType::Noop => "Noop",
    }
}

fn database_type_label_of(d: DatabaseType) -> (r: &'static str)
    ensures
        r@ == database_type_label(d),
{
    match d {
        DatabaseType::RocksDb => "RocksDb",
        DatabaseType::ParityDb => "ParityDb",
    }
}

impl ConstructionBenchmarkDescription {
    /// The path under which the benchmark is reported:
    /// `node/proposer/<keys>/<block content>/<database>/<size>`.
    pub fn path(&self) -> (r: Vec<String>)
        ensures
            string_views(r@) == seq![
                "node"@,
                "proposer"@,
                key_types_segment(self.key_types),
                block_type_segment(self.block_type),
                database_type_segment(self.database_type),
                self.size@,
            ],
    {
        let mut path: Vec<String> = Vec::new();
        path.push(String::from_str("node"));
        path.push(String::from_str("proposer"));
        path.push(key_types_segment_of(self.key_types));
        path.push(block_type_segment_of(self.block_type));
        path.push(database_type_segment_of(self.database_type));
        path.push(self.size.clone());
        assert(string_views(path@) =~= seq![
            "node"@,
            "proposer"@,
            key_types_segment(self.key_types),
            block_type_segment(self.block_type),
            database_type_segment(self.database_type),
            self.size@,
        ]);
        path
    }

    /// The name of the benchmark:
    /// `Block construction (<block content>/<size>, <database> backend)`.
    pub fn name(&self) -> (r: String)
        ensures
            r@ == "Block construction ("@ + block_type_label(self.block_type) + "/"@ + self.size@
                + ", "@ + database_type_label(self.database_type) + " backend)"@,
    {
        let name = String::from_str("Block construction (");
        let name = name.concat(block_type_label_of(self.block_type));
        let name = name.concat("/");
        let name = name.concat(self.size.as_str());
        let name = name.concat(", ");
        let name = name.concat(database_type_label_of(self.database_type));
        name.concat(" backend)")
    }
}

} // verus!
