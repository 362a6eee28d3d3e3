//! The store and the state machines over it, with an in-memory backend.

use hash_db::{AsHashDB, HashDB, HashDBRef, Hasher, Prefix};
use keccak_hasher::KeccakHasher;
use kvdb::{DBTransaction, KeyValueDB};
use parity_util_mem::{MallocSizeOf, MallocSizeOfOps};
use std::io;
use std::sync::Arc;
use trie_db::{
    DBValue, NodeCodec, Trie, TrieConfiguration, TrieDB, TrieDBMut, TrieLayout, TrieMut,
};
use wdn_node::blockchain::db::{
    block_parts, cbor_index, get_latest_hash, hash_at, pointer_of, ActivationOperation, Block,
    BlockchainDB, NeedSignData, NodeActivation, TaskOperation, TaskOperationType, KEY_LAST_HASH,
    PARTS_FAILED, POINTERS_FAILED,
};
use wdn_node::blockchain::{link, links_to, BlockEffect, BlockchainModule};
use wdn_node::database::data_types::{
    NodeActiveStatus, NodeStatus, NodeType, TaskData, TaskStatus, TaskType,
};
use wdn_node::database::db::{
    Backend, Store, COL_ACCOUNT, COL_BLOCK_BODIES, COL_BLOCK_HEADERS, COL_EXTRA, COL_NODE_LIST,
    COL_NODE_LIST_ACTIVATED, COL_TASK_LIST, COL_TASK_OPERATIONS, COL_TASK_RESULT, DB, NUM_COLUMNS,
};
use wdn_node::database::keccak::hash;
use wdn_node::database::trie::{NodeStore, Unchecked};
use wdn_node::database::trie_layout::{ExtensionLayout as Parameters, ReferenceNodeCodec};
use wdn_node::database::{get_root, is_zero_root, root_of, save_root, AppDB};
use wdn_node::database::data_types::TaskDistributeData;
use wdn_node::keep_alive::ping;
use wdn_node::message::{Caller, LocalMessage, LocalMessageModule, Message, Waiter};
use wdn_node::network::topics::{PingMessage, SubTopics, TopicMessage, Topics};
use wdn_node::network::config::NetworkConfig;
use wdn_node::network::{Delivery, Network, NetworkMessage, NetworkModule};
use wdn_node::node::config::NodeConfig;
use wdn_node::node::db::NodeDB;
use wdn_node::node::init::{InitAction, InitEvent, InitTarget, KeeperCheck};
use wdn_node::node::{NodeEffect, NodeModule};
use wdn_node::task::db::{TaskDB, TaskStores};
use wdn_node::task::{GenesisEncoding, TaskEffect, TaskModule};

struct Glue(DB);

impl HashDB<KeccakHasher, DBValue> for Glue {
    fn get(&self, key: &[u8; 32], prefix: Prefix) -> Option<DBValue> {
        self.0.hash_get(key, prefix)
    }

    fn contains(&self, key: &[u8; 32], prefix: Prefix) -> bool {
        self.0.contains(key, prefix)
    }

    fn emplace(&mut self, key: [u8; 32], prefix: Prefix, value: DBValue) {
        self.0.emplace(key, prefix, value);
    }

    fn insert(&mut self, prefix: Prefix, value: &[u8]) -> [u8; 32] {
        self.0.insert(prefix, value)
    }

    fn remove(&mut self, key: &[u8; 32], prefix: Prefix) {
        self.0.hash_remove(key, prefix)
    }
}

impl HashDBRef<KeccakHasher, DBValue> for Glue {
    fn get(&self, key: &[u8; 32], prefix: Prefix) -> Option<DBValue> {
        HashDB::get(self, key, prefix)
    }

    fn contains(&self, key: &[u8; 32], prefix: Prefix) -> bool {
        HashDB::contains(self, key, prefix)
    }
}

impl AsHashDB<KeccakHasher, DBValue> for Glue {
    fn as_hash_db(&self) -> &dyn HashDB<KeccakHasher, DBValue> {
        self
    }

    fn as_hash_db_mut(&mut self) -> &mut dyn HashDB<KeccakHasher, DBValue> {
        self
    }
}

#[derive(Default, Clone)]
struct Layout;

impl TrieLayout for Layout {
    const USE_EXTENSION: bool = Parameters::USE_EXTENSION;
    const ALLOW_EMPTY: bool = Parameters::ALLOW_EMPTY;
    const MAX_INLINE_VALUE: Option<u32> = Parameters::MAX_INLINE_VALUE;
    type Hash = KeccakHasher;
    type Codec = ReferenceNodeCodec;
}

impl TrieConfiguration for Layout {}

/// A store in memory that outlives the handles to it, as a disk outlives a process.
#[derive(Clone)]
struct Disk(Arc<kvdb_memorydb::InMemory>);

impl MallocSizeOf for Disk {
    fn size_of(&self, _ops: &mut MallocSizeOfOps) -> usize {
        0
    }
}

impl KeyValueDB for Disk {
    fn get(&self, col: u32, key: &[u8]) -> io::Result<Option<DBValue>> {
        self.0.get(col, key)
    }

    fn get_by_prefix(&self, col: u32, prefix: &[u8]) -> Option<Box<[u8]>> {
        self.0.get_by_prefix(col, prefix)
    }

    fn write(&self, transaction: DBTransaction) -> io::Result<()> {
        self.0.write(transaction)
    }

    fn iter<'a>(&'a self, col: u32) -> Box<dyn Iterator<Item = (Box<[u8]>, Box<[u8]>)> + 'a> {
        self.0.iter(col)
    }

    fn iter_with_prefix<'a>(
        &'a self,
        col: u32,
        prefix: &'a [u8],
    ) -> Box<dyn Iterator<Item = (Box<[u8]>, Box<[u8]>)> + 'a> {
        self.0.iter_with_prefix(col, prefix)
    }

    fn restore(&self, new_db: &str) -> io::Result<()> {
        self.0.restore(new_db)
    }
}

fn disk() -> Disk {
    Disk(Arc::new(kvdb_memorydb::create(NUM_COLUMNS)))
}

/// The first handle to a disk: what a process has when it starts. The
/// handles of the process before are gone by then.
fn start(disk: &Disk) -> Backend {
    Backend::new(Store::new(disk.clone()), NUM_COLUMNS).unwrap()
}

fn backend() -> Backend {
    start(&disk())
}

/// A handle that holds the named entries of some columns, and nothing else.
fn named(backend: &mut Backend, columns: &[u32]) -> Backend {
    let mut handle = backend.take_named(columns[0]).unwrap();
    for column in &columns[1..] {
        assert!(handle.join_named(backend, *column));
    }
    handle
}

fn column(backend: &mut Backend, column: u32) -> Glue {
    Glue(DB::new(backend.take_nodes(column).unwrap(), column).unwrap())
}

fn nodes(backend: &mut Backend, col: u32) -> NodeStore {
    NodeStore::new(Unchecked::new::<Layout, Glue>(column(backend, col))).unwrap()
}

/// The node store of a scratch trie: a store of its own.
fn scratch() -> NodeStore {
    nodes(&mut Backend::new(Store::new(kvdb_memorydb::create(1)), 1).unwrap(), 0)
}

fn trie_of(entries: &[(&[u8], &[u8])]) -> AppDB {
    let mut backend = backend();
    let mut trie = AppDB::empty(nodes(&mut backend, COL_NODE_LIST));
    for (key, value) in entries {
        trie.insert(key, value).unwrap();
    }
    trie
}

const EMPTY_ROOT: [u8; 32] = [
    0xbc, 0x36, 0x78, 0x9e, 0x7a, 0x1e, 0x28, 0x14, 0x36, 0x46, 0x42, 0x29, 0x82, 0x8f, 0x81, 0x7d,
    0x66, 0x12, 0xf7, 0xb4, 0x77, 0xd6, 0x65, 0x91, 0xff, 0x96, 0xa9, 0xe0, 0x64, 0xbc, 0xc9, 0x8a,
];

#[test]
fn test_database() {
    let db_backend = backend();
    let mut view = Glue(DB::new(db_backend, 0).unwrap());
    let mut root = [0u8; 32];
    {
        let mut db = TrieDBMut::<Layout>::new(&mut view, &mut root);

        db.insert(b"hello", b"world").unwrap();
        println!("root {:?}", db.root());
        db.insert(b"fuck", b"you").unwrap();
        println!("root {:?}", db.root());
        let value = db.get(b"hello").unwrap();
        println!("value {:?}", value);
        assert_eq!(value, Some(b"world".to_vec()));
        let value = db.get(b"fuck").unwrap();
        println!("value2 {:?}", value);
        assert_eq!(value, Some(b"you".to_vec()));
    }
    assert_eq!(view.0.get(b"root").unwrap(), None);
}

#[test]
fn empty_trie_root_is_hash_of_zero_byte() {
    assert_eq!(ReferenceNodeCodec::hashed_null_node(), EMPTY_ROOT);
    assert_eq!(hash(&[0u8]), EMPTY_ROOT);
    assert_eq!(trie_of(&[]).get_root(), EMPTY_ROOT);
    assert_eq!(Layout::trie_root::<Vec<(Vec<u8>, Vec<u8>)>, _, _>(vec![]), EMPTY_ROOT);
}

#[test]
fn trie_root_equality() {
    let a = trie_of(&[(&[0x01], b"a"), (&[0x02], b"b"), (&[0x03], b"c")]).get_root();
    let b = trie_of(&[(&[0x03], b"c"), (&[0x01], b"a"), (&[0x02], b"b")]).get_root();
    assert_eq!(a, b);
    assert_ne!(a, EMPTY_ROOT);
    assert_ne!(b, EMPTY_ROOT);
}

#[test]
fn trie_root_is_the_root_of_the_entries() {
    let entries: Vec<(Vec<u8>, Vec<u8>)> = (0u8..40)
        .map(|i| (vec![i / 3, i, 0xa0 | (i % 7)], vec![i; (i as usize) * 3 + 1]))
        .collect();
    let borrowed: Vec<(&[u8], &[u8])> =
        entries.iter().map(|(k, v)| (k.as_slice(), v.as_slice())).collect();
    let mut reversed = borrowed.clone();
    reversed.reverse();
    let root = trie_of(&borrowed).get_root();
    assert_eq!(root, trie_of(&reversed).get_root());
    let mut sorted = entries.clone();
    sorted.sort();
    assert_eq!(root, Layout::trie_root(sorted));
}

#[test]
fn trie_insert_get_remove() {
    let mut trie = trie_of(&[]);
    trie.insert(b"key", b"value").unwrap();
    assert_eq!(trie.get(b"key").unwrap(), Some(b"value".to_vec()));
    trie.insert(b"kez", b"other").unwrap();
    assert_eq!(trie.get(b"key").unwrap(), Some(b"value".to_vec()));
    assert_eq!(trie.get(b"kez").unwrap(), Some(b"other".to_vec()));
    assert_eq!(trie.get(b"ke").unwrap(), None);
    trie.insert(b"key", b"again").unwrap();
    assert_eq!(trie.get(b"key").unwrap(), Some(b"again".to_vec()));
    let with_both = trie.get_root();
    trie.remove(b"key").unwrap();
    assert_eq!(trie.get(b"key").unwrap(), None);
    assert_eq!(trie.get(b"kez").unwrap(), Some(b"other".to_vec()));
    assert_eq!(trie.get_root(), trie_of(&[(b"kez", b"other")]).get_root());
    trie.remove(b"kez").unwrap();
    assert_eq!(trie.get_root(), EMPTY_ROOT);
    // A trie that was committed stays readable.
    trie.restore(with_both);
    assert_eq!(trie.get(b"key").unwrap(), Some(b"again".to_vec()));
    trie.reset();
    assert_eq!(trie.get_root(), EMPTY_ROOT);
    assert_eq!(trie.get(b"key").unwrap(), None);
}

#[test]
fn trie_insert_of_empty_value_removes() {
    let mut trie = trie_of(&[(b"a", b"1"), (b"b", b"2")]);
    trie.insert(b"a", b"").unwrap();
    assert_eq!(trie.get(b"a").unwrap(), None);
    assert_eq!(trie.get_root(), trie_of(&[(b"b", b"2")]).get_root());
}

#[test]
fn trie_multi_insert_and_multi_remove() {
    let mut trie = trie_of(&[(b"a", b"1")]);
    trie.multi_insert(vec![(b"b".as_slice(), b"2".as_slice()), (b"c", b"3"), (b"a", b"4")])
        .unwrap();
    assert_eq!(trie.get_root(), trie_of(&[(b"a", b"4"), (b"b", b"2"), (b"c", b"3")]).get_root());
    trie.multi_remove(vec![b"b".as_slice(), b"zz", b"a"]).unwrap();
    assert_eq!(trie.get_root(), trie_of(&[(b"c", b"3")]).get_root());
    let before = trie.get_root();
    trie.multi_insert(vec![]).unwrap();
    trie.multi_remove(vec![]).unwrap();
    assert_eq!(trie.get_root(), before);
}

#[test]
fn trie_under_unknown_root_fails_and_keeps_its_root() {
    let mut backend = backend();
    let mut trie = AppDB::new(nodes(&mut backend, COL_NODE_LIST), [7u8; 32]).unwrap();
    assert_eq!(trie.get_root(), [7u8; 32]);
    let error = trie.get(b"a").unwrap_err();
    assert!(error.message.contains("InvalidStateRoot"), "{}", error.message);
    assert!(trie.insert(b"a", b"1").is_err());
    assert_eq!(trie.get_root(), [7u8; 32]);
    assert!(trie.remove(b"a").is_err());
    assert!(trie.multi_insert(vec![(b"a".as_slice(), b"1".as_slice())]).is_err());
    assert_eq!(trie.get_root(), [7u8; 32]);
}

#[test]
fn trie_with_long_values_and_hashed_children() {
    let entries: Vec<(Vec<u8>, Vec<u8>)> =
        (0u16..300).map(|i| (i.to_be_bytes().to_vec(), vec![(i % 251) as u8; 70])).collect();
    let disk = disk();
    let mut db = column(&mut start(&disk), COL_NODE_LIST);
    let mut root = [0u8; 32];
    {
        let mut trie = TrieDBMut::<Layout>::new(&mut db, &mut root);
        for (key, value) in &entries {
            trie.insert(key, value).unwrap();
        }
    }
    {
        let trie = TrieDB::<Layout>::new(&db, &root).unwrap();
        for (key, value) in &entries {
            assert_eq!(trie.get(key).unwrap().as_ref(), Some(value));
        }
    }
    drop(db);
    let mut sorted = entries.clone();
    sorted.sort();
    assert_eq!(root, Layout::trie_root(sorted));
    let reopened = AppDB::new(nodes(&mut start(&disk), COL_NODE_LIST), root).unwrap();
    assert_eq!(reopened.get(&[0, 7]).unwrap(), Some(vec![7u8; 70]));
}

#[test]
fn trie_takes_keys_of_63_bytes() {
    let key = [0xabu8; 63];
    let mut trie = trie_of(&[(&key, b"v")]);
    assert_eq!(trie.get(&key).unwrap(), Some(b"v".to_vec()));
    let mut other = key;
    other[62] = 0xac;
    trie.insert(&other, b"w").unwrap();
    assert_eq!(trie.get(&key).unwrap(), Some(b"v".to_vec()));
    assert_eq!(trie.get(&other).unwrap(), Some(b"w".to_vec()));
}

#[test]
fn record_stands_under_its_hash() {
    let mut trie = trie_of(&[]);
    trie.insert_record(b"record").unwrap();
    assert_eq!(trie.get(&hash(b"record")).unwrap(), Some(b"record".to_vec()));
}

#[test]
fn node_store_answers_for_the_empty_node() {
    let mut backend = backend();
    let db = column(&mut backend, COL_NODE_LIST);
    assert_eq!(HashDB::get(&db, &EMPTY_ROOT, (&[], None)), Some(vec![0u8]));
    assert!(HashDB::contains(&db, &EMPTY_ROOT, (&[], None)));
    let other = KeccakHasher::hash(b"other");
    assert_eq!(HashDB::get(&db, &other, (&[], None)), None);
    assert!(!HashDB::contains(&db, &other, (&[], None)));
}

#[test]
fn node_store_keeps_nodes_under_prefixed_keys() {
    let mut backend = backend();
    let mut db = column(&mut backend, COL_NODE_LIST);
    let node = vec![0x42u8, 1, 2, 3];
    let key = HashDB::insert(&mut db, (&[0xab], Some(0x0c)), &node);
    assert_eq!(key, KeccakHasher::hash(&node));
    assert_eq!(HashDB::get(&db, &key, (&[0xab], Some(0x0c))), Some(node.clone()));
    assert_eq!(HashDB::get(&db, &key, (&[0xab], None)), None);
    let mut prefixed = vec![0xab, 0x0c];
    prefixed.extend_from_slice(&key);
    assert_eq!(db.0.get(&prefixed).unwrap(), Some(node.clone()));
    // The empty node is never stored, and nothing is ever deleted.
    let null = HashDB::insert(&mut db, (&[], None), &[0u8]);
    assert_eq!(null, EMPTY_ROOT);
    assert_eq!(db.0.get(&EMPTY_ROOT).unwrap(), None);
    HashDB::remove(&mut db, &key, (&[0xab], Some(0x0c)));
    assert_eq!(db.0.get(&prefixed).unwrap(), Some(node));
    // The view holds the nodes of its column, and nothing else.
    assert!(db.0.get(b"root").is_err());
    assert!(db.0.set(b"root", &[1u8; 32]).is_err());
    assert_eq!(backend.read(COL_NODE_LIST, b"root").unwrap(), None);
    assert!(backend.read(COL_NODE_LIST, &prefixed).is_err());
}

#[test]
fn column_without_a_root_opens_as_the_empty_trie() {
    let mut backend = backend();
    let root = get_root(&backend, COL_NODE_LIST).unwrap();
    assert_eq!(root, [0u8; 32]);
    assert!(is_zero_root(&root));
    assert!(!is_zero_root(&[7u8; 32]));
    assert_eq!(AppDB::new(nodes(&mut backend, COL_NODE_LIST), root).unwrap().get_root(), EMPTY_ROOT);
    backend.write_one(COL_NODE_LIST, b"root", Some(&[9u8; 32])).unwrap();
    assert_eq!(get_root(&backend, COL_NODE_LIST).unwrap(), [9u8; 32]);
    backend.write_one(COL_NODE_LIST, b"root", Some(&[9u8; 5])).unwrap();
    assert_eq!(get_root(&backend, COL_NODE_LIST).unwrap(), [0u8; 32]);
    backend.write_one(COL_NODE_LIST, b"root", None).unwrap();
    assert_eq!(backend.read(COL_NODE_LIST, b"root").unwrap(), None);
    save_root(&mut backend, COL_NODE_LIST, &[8u8; 32]).unwrap();
    assert_eq!(get_root(&backend, COL_NODE_LIST).unwrap(), [8u8; 32]);
    assert_eq!(backend.read(COL_NODE_LIST, b"root").unwrap(), Some(vec![8u8; 32]));
    assert_eq!(get_root(&backend, COL_NODE_LIST_ACTIVATED).unwrap(), [0u8; 32]);
}

#[test]
fn tries_are_reopened_under_the_roots_that_their_columns_keep() {
    let disk = disk();
    let (node_root, active_root) = {
        let mut tries = node_tries(&mut start(&disk));
        tries.insert_node(b"node one").unwrap();
        tries.insert_node(b"node two").unwrap();
        tries.insert_node_activation(b"activation").unwrap();
        assert_eq!(tries.node_db.kept_root().unwrap(), Some(tries.node_db.get_root()));
        assert_eq!(tries.temp_node_db.kept_root().unwrap(), None);
        (tries.node_db.get_root(), tries.node_active_db.get_root())
    };
    {
        let mut backend = start(&disk);
        assert_eq!(get_root(&backend, COL_NODE_LIST).unwrap(), node_root);
        assert_eq!(get_root(&backend, COL_NODE_LIST_ACTIVATED).unwrap(), active_root);
        let tries = node_tries(&mut backend);
        assert_eq!(tries.node_db.get_root(), node_root);
        assert_eq!(tries.node_db.get(&hash(b"node two")).unwrap(), Some(b"node two".to_vec()));
        assert_eq!(tries.temp_node_db.get_root(), EMPTY_ROOT);
    }
    let block = {
        let mut chain_one = chain(&mut start(&disk));
        let block = chain_one.insert_block(0, b"header", b"body", b"block").unwrap();
        assert_eq!(chain_one.header_db.kept_root().unwrap(), Some(chain_one.header_db.get_root()));
        assert_eq!(chain_one.body_db.kept_root().unwrap(), Some(chain_one.body_db.get_root()));
        block
    };
    {
        let chain_two = chain(&mut start(&disk));
        assert_eq!(
            chain_two.get_block_by_hash(&block).unwrap(),
            (b"header".to_vec(), b"body".to_vec())
        );
        assert_eq!(chain_two.latest_hash().unwrap(), Some(block));
    }
    let (operations, results) = {
        let mut task = task_machine(&mut start(&disk));
        task.db.insert_task(b"task").unwrap();
        task.db.insert_task_operation(b"operation").unwrap();
        task.db.insert_task_result(b"result").unwrap();
        (task.db.task_operation_db.get_root(), task.db.task_result_db.get_root())
    };
    let reopened = task_machine(&mut start(&disk));
    assert_eq!(reopened.db.task_db.get(&hash(b"task")).unwrap(), Some(b"task".to_vec()));
    assert_eq!(reopened.db.task_operation_db.get_root(), operations);
    assert_eq!(reopened.db.task_result_db.get_root(), results);
    assert_eq!(reopened.db.temp_task_result_db.get_root(), EMPTY_ROOT);
}

const CHAIN_COLUMNS: [u32; 3] = [COL_EXTRA, COL_BLOCK_HEADERS, COL_BLOCK_BODIES];

fn chain(backend: &mut Backend) -> BlockchainDB {
    BlockchainDB::new(
        named(backend, &CHAIN_COLUMNS),
        nodes(backend, COL_BLOCK_HEADERS),
        nodes(backend, COL_BLOCK_BODIES),
    )
    .unwrap()
}

fn engine(backend: &mut Backend) -> BlockchainModule {
    BlockchainModule::new(
        named(backend, &CHAIN_COLUMNS),
        nodes(backend, COL_BLOCK_HEADERS),
        nodes(backend, COL_BLOCK_BODIES),
        Waiter::new(1).get_caller(),
    )
    .unwrap()
}

#[test]
fn index_key_is_the_cbor_of_the_index() {
    assert_eq!(cbor_index(0).unwrap(), vec![0x00]);
    assert_eq!(cbor_index(23).unwrap(), vec![0x17]);
    assert_eq!(cbor_index(24).unwrap(), vec![0x18, 0x18]);
    assert_eq!(cbor_index(255).unwrap(), vec![0x18, 0xff]);
    assert_eq!(cbor_index(256).unwrap(), vec![0x19, 0x01, 0x00]);
    assert_eq!(cbor_index(65535).unwrap(), vec![0x19, 0xff, 0xff]);
    assert_eq!(cbor_index(65536).unwrap(), vec![0x1a, 0x00, 0x01, 0x00, 0x00]);
    assert_eq!(cbor_index(0xffff_ffff).unwrap(), vec![0x1a, 0xff, 0xff, 0xff, 0xff]);
    assert_eq!(
        cbor_index(0x1_0000_0000).unwrap(),
        vec![0x1b, 0x00, 0x00, 0x00, 0x01, 0x00, 0x00, 0x00, 0x00]
    );
    assert_eq!(
        cbor_index(u64::MAX).unwrap(),
        vec![0x1b, 0xff, 0xff, 0xff, 0xff, 0xff, 0xff, 0xff, 0xff]
    );
}

#[test]
fn packed_block_is_found_by_index_and_by_hash() {
    let mut backend = backend();
    assert_eq!(get_latest_hash(&backend).unwrap(), None);
    let mut chain = chain(&mut backend);
    // The pointers are the chain's now: the handle that parted with them reads them no more.
    assert!(get_latest_hash(&backend).is_err());
    assert_eq!(chain.latest_hash().unwrap(), None);
    assert_eq!(chain.get_block_by_index(0).unwrap_err().message, "block index not found");
    let block_hash = chain.insert_block(0, b"header", b"body", b"block").unwrap();
    assert_eq!(block_hash, hash(b"block"));
    assert_eq!(chain.latest_hash().unwrap(), Some(block_hash));
    assert_eq!(get_latest_hash(&chain.db).unwrap(), Some(block_hash));
    assert_eq!(chain.get_hash_by_index(0).unwrap(), block_hash);
    assert_eq!(chain.get_block_by_index(0).unwrap(), (b"header".to_vec(), b"body".to_vec()));
    assert_eq!(
        chain.get_block_by_hash(&block_hash).unwrap(),
        (b"header".to_vec(), b"body".to_vec())
    );
    assert!(chain.get_block_by_hash(&[1u8; 32]).is_err());
    assert_eq!(chain.get_block_by_index(1).unwrap_err().message, "block index not found");
    assert_eq!(chain.db.read(COL_EXTRA, &[0x00]).unwrap(), Some(block_hash.to_vec()));
    assert_eq!(chain.db.read(COL_EXTRA, &KEY_LAST_HASH).unwrap(), Some(block_hash.to_vec()));
    assert_eq!(chain.db.read(COL_EXTRA, b"latest_hash").unwrap(), Some(block_hash.to_vec()));
    let second = chain.insert_block(1, b"header 1", b"body 1", b"block 1").unwrap();
    assert_eq!(chain.latest_hash().unwrap(), Some(second));
    assert_eq!(chain.get_hash_by_index(0).unwrap(), block_hash);
    assert_eq!(chain.get_hash_by_index(1).unwrap(), second);
}

#[test]
fn block_without_its_tries_is_not_packed() {
    let mut backend = backend();
    let mut chain = chain(&mut backend);
    chain.body_db.restore([3u8; 32]).unwrap();
    let header_root = chain.header_db.get_root();
    assert!(chain.insert_block(0, b"header", b"body", b"block").is_err());
    assert_eq!(chain.header_db.get_root(), header_root);
    assert_eq!(chain.body_db.get_root(), [3u8; 32]);
    assert_eq!(chain.latest_hash().unwrap(), None);
    assert!(chain.get_hash_by_index(0).is_err());
}

fn activation(peer: &str) -> NeedSignData<NodeActivation> {
    NeedSignData {
        data: NodeActivation {
            operation: ActivationOperation::Activate,
            peer_id: peer.to_string(),
            account: vec![1, 2],
            pub_key: vec![3],
        },
        signature: vec![9, 9],
    }
}

fn operation(id: u64) -> TaskOperation {
    TaskOperation {
        id,
        operation: TaskOperationType::Add,
        binary_hash: [id as u8; 32],
        task_type: TaskType::Single,
        node_limit: 5,
        reward_weight: 7,
    }
}

#[test]
fn engine_starts_with_the_blank_block() {
    let mut backend = backend();
    let engine = engine(&mut backend);
    assert_eq!(*engine.current_block(), Block::default());
    assert_eq!(engine.current_block().header.index, 0);
    assert_eq!(engine.current_block().header.previous_hash, [0u8; 32]);
    assert!(engine.current_block().body.node_activation.is_empty());
}

#[test]
fn engine_records_operations_in_the_current_block() {
    let mut backend = backend();
    let mut engine = engine(&mut backend);
    engine.save_node_activation(activation("Q"), [1; 32], [2; 32], [3; 32]).unwrap();
    engine.save_task_operation(vec![operation(1), operation(2)], [4; 32], [5; 32], [6; 32]).unwrap();
    engine.save_task_operation(vec![operation(3)], [7; 32], [8; 32], [9; 32]).unwrap();
    let block = engine.current_block();
    assert_eq!(block.body.node_activation, vec![activation("Q")]);
    assert_eq!(block.body.tasks, vec![operation(1), operation(2), operation(3)]);
    assert_eq!(block.header.node_root, [1; 32]);
    assert_eq!(block.header.node_activation_root, [2; 32]);
    assert_eq!(block.header.current_node_activation_root, [3; 32]);
    assert_eq!(block.header.task_root, [7; 32]);
    assert_eq!(block.header.task_operation_root, [8; 32]);
    assert_eq!(block.header.current_task_operation_root, [9; 32]);
    assert_eq!(block.header.account_root, [0; 32]);
    assert_eq!(block.header.index, 0);
}

#[test]
fn engine_serves_local_messages() {
    let mut backend = backend();
    let mut engine = engine(&mut backend);
    let (reply, effect) = engine.deal_local_message(&LocalMessage::ReqBlockSaveNodeActivation(
        activation("Q"),
        [1; 32],
        [2; 32],
        [3; 32],
    ));
    assert!(matches!(
        reply,
        Some(Message::LocalMessage(LocalMessage::AckBlockSaveNodeActivation(true)))
    ));
    assert_eq!(effect, BlockEffect::Nothing);
    let (reply, _) = engine.deal_local_message(&LocalMessage::ReqBlockSaveTaskOperation(
        vec![operation(1)],
        [4; 32],
        [5; 32],
        [6; 32],
    ));
    assert!(matches!(
        reply,
        Some(Message::LocalMessage(LocalMessage::AckBlockSaveTaskOperation(true)))
    ));
    let (reply, effect) = engine.deal_local_message(&LocalMessage::ReqBlockCurrent());
    match reply {
        Some(Message::LocalMessage(LocalMessage::AckBlockCurrent(block))) => {
            assert_eq!(block, *engine.current_block());
            assert_eq!(block.body.node_activation, vec![activation("Q")]);
            assert_eq!(block.body.tasks, vec![operation(1)]);
        }
        _ => panic!("no current block"),
    }
    assert_eq!(effect, BlockEffect::Nothing);
    let (reply, effect) = engine.deal_local_message(&LocalMessage::ReqBlockPack());
    assert!(reply.is_none());
    assert_eq!(effect, BlockEffect::Pack);
    let (reply, effect) = engine.deal_local_message(&LocalMessage::InvokeTask());
    assert!(reply.is_none());
    assert_eq!(effect, BlockEffect::Nothing);
}

#[test]
fn tick_is_started_once() {
    let mut backend = backend();
    let mut engine = engine(&mut backend);
    let (reply, effect) = engine.deal_local_message(&LocalMessage::ReqBlockStartTick());
    assert!(matches!(reply, Some(Message::LocalMessage(LocalMessage::AckBlockStartTick(true)))));
    assert_eq!(effect, BlockEffect::StartTick);
    let (reply, effect) = engine.deal_local_message(&LocalMessage::ReqBlockStartTick());
    assert!(matches!(reply, Some(Message::LocalMessage(LocalMessage::AckBlockStartTick(true)))));
    assert_eq!(effect, BlockEffect::Nothing);
    assert_eq!(engine.start_tick().unwrap(), false);
}

#[test]
fn pack_chains_blocks_and_advances_the_index() {
    let mut backend = backend();
    let mut engine = engine(&mut backend);
    let node = Waiter::new(2).get_caller();
    engine.set_node_caller(node);
    engine.save_node_activation(activation("Q"), [1; 32], [2; 32], [3; 32]).unwrap();
    let outcome = engine.pack_block(b"header 0", b"body 0", b"block 0");
    assert!(outcome.packed);
    assert_eq!(outcome.hash, hash(b"block 0"));
    match outcome.notify {
        Some((to, LocalMessage::ReqNodeDistributeTask(1))) => assert_eq!(to, node),
        _ => panic!("no notification"),
    }
    assert_eq!(engine.latest_hash().unwrap(), Some(hash(b"block 0")));
    assert_eq!(engine.blocks().get_hash_by_index(0).unwrap(), hash(b"block 0"));
    let mut expected = Block::default();
    expected.header.index = 1;
    expected.header.previous_hash = hash(b"block 0");
    assert_eq!(*engine.current_block(), expected);
    let outcome = engine.pack_block(b"header 1", b"body 1", b"block 1");
    assert!(outcome.packed);
    assert_eq!(engine.current_block().header.index, 2);
    assert_eq!(engine.current_block().header.previous_hash, hash(b"block 1"));
    assert_eq!(engine.latest_hash().unwrap(), Some(hash(b"block 1")));
    assert_eq!(engine.blocks().get_hash_by_index(0).unwrap(), hash(b"block 0"));
    assert_eq!(engine.blocks().get_hash_by_index(1).unwrap(), hash(b"block 1"));
}

#[test]
fn pack_without_a_wired_node_notifies_nobody() {
    let mut backend = backend();
    let mut engine = engine(&mut backend);
    let outcome = engine.pack_block(b"h", b"b", b"block");
    assert!(outcome.packed);
    assert!(outcome.notify.is_none());
    assert!(outcome.tick.is_none());
    let task = Waiter::new(4).get_caller();
    engine.set_task_caller(task);
    match engine.pack_block(b"h", b"b", b"block").tick {
        Some((to, LocalMessage::BlockTick())) => assert_eq!(to, task),
        _ => panic!("no tick"),
    }
    assert!(BlockchainModule::distribute_reward(engine.current_block()).is_empty());
}

fn node_tries(backend: &mut Backend) -> NodeDB {
    NodeDB::new(
        named(backend, &[COL_NODE_LIST, COL_NODE_LIST_ACTIVATED]),
        nodes(backend, COL_NODE_LIST),
        nodes(backend, COL_NODE_LIST_ACTIVATED),
        scratch(),
        scratch(),
    )
    .unwrap()
}

fn node_machine(backend: &mut Backend) -> NodeModule {
    NodeModule::new(
        NodeConfig { principal_id: "principal".to_string() },
        "peer".to_string(),
        b"account".to_vec(),
        b"public key".to_vec(),
        node_tries(backend),
        Waiter::new(3).get_caller(),
    )
    .unwrap()
}

#[test]
fn node_tries_keep_records_in_lasting_and_scratch_tries() {
    let mut backend = backend();
    let mut tries = node_tries(&mut backend);
    assert_eq!(tries.node_db.get_root(), EMPTY_ROOT);
    assert_eq!(tries.temp_node_db.get_root(), EMPTY_ROOT);
    tries.insert_node(b"node one").unwrap();
    tries.insert_node_activation(b"activation one").unwrap();
    assert_eq!(tries.node_db.get(&hash(b"node one")).unwrap(), Some(b"node one".to_vec()));
    assert_eq!(tries.node_db.get_root(), tries.temp_node_db.get_root());
    assert_eq!(tries.node_active_db.get_root(), tries.temp_node_active_db.get_root());
    tries.reset_temp_db().unwrap();
    assert_eq!(tries.temp_node_db.get_root(), EMPTY_ROOT);
    assert_eq!(tries.temp_node_active_db.get_root(), EMPTY_ROOT);
    assert_eq!(tries.node_db.get(&hash(b"node one")).unwrap(), Some(b"node one".to_vec()));
    tries.insert_node(b"node two").unwrap();
    assert_eq!(tries.temp_node_db.get(&hash(b"node one")).unwrap(), None);
    assert_eq!(tries.temp_node_db.get(&hash(b"node two")).unwrap(), Some(b"node two".to_vec()));
    assert_eq!(tries.node_db.get(&hash(b"node one")).unwrap(), Some(b"node one".to_vec()));
    assert_eq!(tries.node_db.get(&hash(b"node two")).unwrap(), Some(b"node two".to_vec()));
    assert_ne!(tries.node_db.get_root(), tries.temp_node_db.get_root());
}

fn ack_block(index: u64) -> InitEvent {
    let mut block = Block::default();
    block.header.index = index;
    InitEvent::Reply(Some(Message::LocalMessage(LocalMessage::AckBlockCurrent(block))))
}

fn fail_text(action: InitAction) -> String {
    match action {
        InitAction::Fail(text) => text,
        _ => panic!("no failure"),
    }
}

#[test]
fn genesis_happy_path() {
    let mut backend = backend();
    let mut node = node_machine(&mut backend);
    let (reply, effect) = node.deal_local_message(&LocalMessage::ReqKeeperInit());
    assert!(reply.is_none());
    assert!(matches!(
        effect,
        NodeEffect::Init(InitAction::Call(InitTarget::Blockchain, LocalMessage::ReqBlockCurrent()))
    ));
    assert!(matches!(node.verify_node_init(ack_block(0)), InitAction::AskKeepers));
    let unsigned = match node.verify_node_init(InitEvent::Keepers(KeeperCheck::Keeper)) {
        InitAction::Sign(activation) => activation,
        _ => panic!("nothing to sign"),
    };
    assert_eq!(unsigned.operation, ActivationOperation::Activate);
    assert_eq!(unsigned.peer_id, "peer");
    assert_eq!(unsigned.account, b"account".to_vec());
    assert_eq!(unsigned.pub_key, b"public key".to_vec());
    let (own, signed) = match node.verify_node_init(InitEvent::Signature(Some(vec![5, 6, 7]))) {
        InitAction::Encode(own, signed) => (own, signed),
        _ => panic!("nothing to encode"),
    };
    assert_eq!(own.peer_id, "peer");
    assert_eq!(own.bind_address, "principal");
    assert_eq!(own.status, NodeStatus::Online);
    assert_eq!(own.node_type, NodeType::Verify);
    assert_eq!(signed.data, unsigned);
    assert_eq!(signed.signature, vec![5, 6, 7]);
    let action =
        node.verify_node_init(InitEvent::Encoded(b"node".to_vec(), b"activation".to_vec()));
    let (sent, node_root, active_root, temp_active_root) = match action {
        InitAction::Call(
            InitTarget::Blockchain,
            LocalMessage::ReqBlockSaveNodeActivation(sent, a, b, c),
        ) => (sent, a, b, c),
        _ => panic!("nothing to save"),
    };
    assert_eq!(sent, signed);
    assert_eq!(node.node_list().len(), 1);
    assert_eq!(node.node_list()[0], own);
    assert_eq!(node_root, node.node_db.node_db.get_root());
    assert_eq!(active_root, node.node_db.node_active_db.get_root());
    assert_eq!(temp_active_root, node.node_db.temp_node_active_db.get_root());
    assert_ne!(node_root, EMPTY_ROOT);
    assert_eq!(active_root, temp_active_root);
    assert_eq!(node.node_db.node_db.get(&hash(b"node")).unwrap(), Some(b"node".to_vec()));
    assert_eq!(
        node.node_db.node_active_db.get(&hash(b"activation")).unwrap(),
        Some(b"activation".to_vec())
    );
    let saved =
        InitEvent::Reply(Some(Message::LocalMessage(LocalMessage::AckBlockSaveNodeActivation(true))));
    assert!(matches!(
        node.verify_node_init(saved),
        InitAction::Call(InitTarget::Task, LocalMessage::ReqTaskInitGenesis())
    ));
    let made = InitEvent::Reply(Some(Message::LocalMessage(LocalMessage::AckTaskInitGenesis(true))));
    assert!(matches!(
        node.verify_node_init(made),
        InitAction::Call(InitTarget::Blockchain, LocalMessage::ReqBlockStartTick())
    ));
    let ticking =
        InitEvent::Reply(Some(Message::LocalMessage(LocalMessage::AckBlockStartTick(true))));
    let done = node.verify_node_init(ticking);
    assert!(matches!(done, InitAction::Done));
    assert!(matches!(
        NodeModule::init_reply(&done),
        Some(Message::LocalMessage(LocalMessage::AckKeeperInit(true)))
    ));
}

#[test]
fn non_keeper_init_rejected() {
    let mut backend = backend();
    let mut node = node_machine(&mut backend);
    node.deal_local_message(&LocalMessage::ReqKeeperInit());
    node.verify_node_init(ack_block(0));
    let action = node.verify_node_init(InitEvent::Keepers(KeeperCheck::NotKeeper));
    assert!(matches!(
        NodeModule::init_reply(&action),
        Some(Message::LocalMessage(LocalMessage::AckKeeperInit(false)))
    ));
    assert_eq!(fail_text(action), "You are not verify node!");
    assert!(node.node_list().is_empty());
    assert_eq!(node.node_db.node_db.get_root(), EMPTY_ROOT);
    assert_eq!(get_latest_hash(&backend).unwrap(), None);
}

#[test]
fn re_init_rejected() {
    let mut backend = backend();
    let mut node = node_machine(&mut backend);
    node.deal_local_message(&LocalMessage::ReqKeeperInit());
    let action = node.verify_node_init(ack_block(3));
    assert_eq!(fail_text(action), "node had inited");
    // The initialisation can be asked for again, and fails again.
    let (_, effect) = node.deal_local_message(&LocalMessage::ReqKeeperInit());
    assert!(matches!(effect, NodeEffect::Init(InitAction::Call(..))));
    assert_eq!(fail_text(node.verify_node_init(ack_block(1))), "node had inited");
}

#[test]
fn init_fails_with_the_message_of_its_step() {
    let mut backend = backend();
    let mut node = node_machine(&mut backend);
    let start = |node: &mut NodeModule| {
        node.deal_local_message(&LocalMessage::ReqKeeperInit());
    };
    start(&mut node);
    assert_eq!(
        fail_text(node.verify_node_init(InitEvent::Reply(None))),
        "Can't get block info now!"
    );
    start(&mut node);
    node.verify_node_init(ack_block(0));
    assert_eq!(
        fail_text(node.verify_node_init(InitEvent::Keepers(KeeperCheck::NoKey))),
        "verify node init can not get local key"
    );
    start(&mut node);
    node.verify_node_init(ack_block(0));
    assert_eq!(
        fail_text(node.verify_node_init(InitEvent::Keepers(KeeperCheck::Failed("down".into())))),
        "down"
    );
    start(&mut node);
    node.verify_node_init(ack_block(0));
    node.verify_node_init(InitEvent::Keepers(KeeperCheck::Keeper));
    assert_eq!(
        fail_text(node.verify_node_init(InitEvent::Signature(None))),
        "Verify node init sign node active message fail!"
    );
    let to_saved = |node: &mut NodeModule| {
        node.deal_local_message(&LocalMessage::ReqKeeperInit());
        node.verify_node_init(ack_block(0));
        node.verify_node_init(InitEvent::Keepers(KeeperCheck::Keeper));
        node.verify_node_init(InitEvent::Signature(Some(vec![1])));
        node.verify_node_init(InitEvent::Encoded(vec![1], vec![2]));
    };
    to_saved(&mut node);
    let refused =
        InitEvent::Reply(Some(Message::LocalMessage(LocalMessage::AckBlockSaveNodeActivation(false))));
    assert_eq!(fail_text(node.verify_node_init(refused)), "Init genesis block fail!");
    to_saved(&mut node);
    node.verify_node_init(InitEvent::Reply(Some(Message::LocalMessage(
        LocalMessage::AckBlockSaveNodeActivation(true),
    ))));
    assert_eq!(fail_text(node.verify_node_init(InitEvent::Reply(None))), "init genesis block fail!");
    to_saved(&mut node);
    node.verify_node_init(InitEvent::Reply(Some(Message::LocalMessage(
        LocalMessage::AckBlockSaveNodeActivation(true),
    ))));
    node.verify_node_init(InitEvent::Reply(Some(Message::LocalMessage(
        LocalMessage::AckTaskInitGenesis(true),
    ))));
    let wrong = InitEvent::Reply(Some(Message::LocalMessage(LocalMessage::AckTaskInitGenesis(true))));
    assert_eq!(fail_text(node.verify_node_init(wrong)), "start block tick fail!");
    assert_eq!(
        fail_text(node.verify_node_init(InitEvent::Signature(Some(vec![])))),
        "unexpected event"
    );
}

fn task_machine(backend: &mut Backend) -> TaskModule {
    let stores = TaskStores {
        task: nodes(backend, COL_TASK_LIST),
        task_operation: nodes(backend, COL_TASK_OPERATIONS),
        task_result: nodes(backend, COL_TASK_RESULT),
        temp_task_operation: scratch(),
        temp_task_result: scratch(),
    };
    let handle = named(backend, &[COL_TASK_LIST, COL_TASK_OPERATIONS, COL_TASK_RESULT]);
    TaskModule::new(
        TaskDB::new(handle, stores).unwrap(),
        "peer".to_string(),
        Waiter::new(4).get_caller(),
    )
    .unwrap()
}

fn encoding() -> GenesisEncoding {
    GenesisEncoding {
        operation_one: b"operation one".to_vec(),
        task_one: b"task one".to_vec(),
        operation_two: b"operation two".to_vec(),
        task_two: b"task two".to_vec(),
    }
}

#[test]
fn genesis_tasks_are_recorded_and_join_the_catalog() {
    let mut backend = backend();
    let mut task = task_machine(&mut backend);
    let (reply, effect) = task.deal_local_message(&LocalMessage::ReqTaskInitGenesis());
    assert!(reply.is_none());
    assert!(matches!(effect, TaskEffect::Genesis));
    let plan = TaskModule::genesis_plan();
    assert_eq!(plan.operations.len(), 2);
    for (i, op) in plan.operations.iter().enumerate() {
        assert_eq!(op.id, i as u64 + 1);
        assert_eq!(op.operation, TaskOperationType::Add);
        assert_eq!(op.task_type, TaskType::LongTerm);
        assert_eq!(op.node_limit, 100);
        assert_eq!(op.reward_weight, 100 * (i as u64 + 1));
    }
    assert_eq!(plan.operations[0].binary_hash, hash(b"one"));
    assert_eq!(plan.operations[1].binary_hash, hash(b"two"));
    assert_eq!(
        plan.tasks[1],
        TaskData {
            id: 2,
            hash: hash(b"two"),
            task_type: TaskType::LongTerm,
            node_limit: 100,
            current_node_num: 0,
            status: TaskStatus::Enable,
            reward_weight: 200,
        }
    );
    let request = task.genesis_store(&plan, &encoding()).unwrap();
    match request {
        LocalMessage::ReqBlockSaveTaskOperation(operations, task_root, op_root, temp_op_root) => {
            assert_eq!(operations, plan.operations);
            assert_eq!(task_root, task.db.task_db.get_root());
            assert_eq!(op_root, task.db.task_operation_db.get_root());
            assert_eq!(temp_op_root, task.db.temp_task_operation_db.get_root());
            assert_eq!(op_root, temp_op_root);
            assert_ne!(task_root, EMPTY_ROOT);
        }
        _ => panic!("no request"),
    }
    assert_eq!(task.db.task_db.get(&hash(b"task one")).unwrap(), Some(b"task one".to_vec()));
    assert_eq!(task.db.task_db.get(&hash(b"task two")).unwrap(), Some(b"task two".to_vec()));
    assert_eq!(
        task.db.task_operation_db.get(&hash(b"operation two")).unwrap(),
        Some(b"operation two".to_vec())
    );
    let tasks = plan.tasks.clone();
    let saved = Some(Message::LocalMessage(LocalMessage::AckBlockSaveTaskOperation(true)));
    task.genesis_init_task(plan, saved).unwrap();
    assert_eq!(*task.all_task_list(), tasks);
    assert!(matches!(
        TaskModule::genesis_reply(true),
        Message::LocalMessage(LocalMessage::AckTaskInitGenesis(true))
    ));
}

#[test]
fn genesis_tasks_fail_without_the_block_engine() {
    let mut backend = backend();
    let mut task = task_machine(&mut backend);
    for reply in [
        None,
        Some(Message::LocalMessage(LocalMessage::AckBlockSaveTaskOperation(false))),
        Some(Message::LocalMessage(LocalMessage::AckBlockStartTick(true))),
    ] {
        let error = task.genesis_init_task(TaskModule::genesis_plan(), reply).unwrap_err();
        assert_eq!(error.message, "init task fail");
        assert!(task.all_task_list().is_empty());
    }
}

#[test]
fn task_results_are_recorded_in_both_tries() {
    let mut backend = backend();
    let mut task = task_machine(&mut backend);
    task.db.insert_task_result(b"result").unwrap();
    assert_eq!(task.db.task_result_db.get(&hash(b"result")).unwrap(), Some(b"result".to_vec()));
    assert_eq!(task.db.task_result_db.get_root(), task.db.temp_task_result_db.get_root());
    task.db.reset_temp_db();
    assert_eq!(task.db.temp_task_result_db.get_root(), EMPTY_ROOT);
    assert_eq!(task.db.temp_task_operation_db.get_root(), EMPTY_ROOT);
    assert_ne!(task.db.task_result_db.get_root(), EMPTY_ROOT);
}

#[test]
fn distribution_is_asked_for_every_tenth_block() {
    let mut backend = backend();
    let mut node = node_machine(&mut backend);
    node.node_db.insert_node(b"node").unwrap();
    let mut asked = Vec::new();
    for index in 1..=25u64 {
        let (reply, effect) = node.deal_local_message(&LocalMessage::ReqNodeDistributeTask(index));
        assert!(reply.is_none());
        assert_eq!(node.node_db.temp_node_db.get_root(), EMPTY_ROOT);
        if let NodeEffect::GetTaskList(at) = effect {
            asked.push(at);
            let catalog = TaskModule::genesis_plan().tasks;
            let reply = Some(Message::LocalMessage(LocalMessage::GetTaskListResponse(catalog)));
            node.distribute_task(reply, at).unwrap();
        }
    }
    assert_eq!(asked, vec![10, 20]);
    assert_ne!(node.node_db.node_db.get_root(), EMPTY_ROOT);
    let _ = Caller::waiter_id(&Waiter::new(0).get_caller());
    let _ = NodeActiveStatus::Actived;
}

fn ping_message(peer: &str) -> PingMessage {
    ping("p".to_string(), peer.to_string(), 1700000000)
}

fn topic_message(sub_topic: SubTopics) -> TopicMessage {
    TopicMessage { sub_topic, data: vec![] }
}

#[test]
fn ping_adds_peer() {
    let mut backend = backend();
    let mut node = node_machine(&mut backend);
    node.deal_peer_message(&topic_message(SubTopics::Ping), Some(ping_message("Q")));
    assert_eq!(node.node_list().len(), 1);
    let added = &node.node_list()[0];
    assert_eq!(added.peer_id, "Q");
    assert_eq!(added.bind_address, "p");
    assert_eq!(added.status, NodeStatus::Online);
    assert_eq!(added.active_status, NodeActiveStatus::Inactived);
    assert_eq!(added.node_type, NodeType::Work);
    assert_eq!(added.stake_amount, 0);
    assert_eq!(added.online_blocks, 0);
    node.deal_peer_message(&topic_message(SubTopics::Ping), Some(ping_message("Q")));
    assert_eq!(node.node_list().len(), 1);
    node.deal_peer_message(&topic_message(SubTopics::Ping), Some(ping_message("R")));
    assert_eq!(node.node_list().len(), 2);
    node.deal_peer_message(&topic_message(SubTopics::Pong), None);
    node.deal_peer_message(&topic_message(SubTopics::ReqNodeList), Some(ping_message("S")));
    assert_eq!(node.node_list().len(), 2);
}

#[test]
fn distribution_without_tasks_fails() {
    let mut backend = backend();
    let mut node = node_machine(&mut backend);
    for reply in [
        None,
        Some(Message::LocalMessage(LocalMessage::GetTaskListResponse(vec![]))),
        Some(Message::LocalMessage(LocalMessage::AckKeeperInit(true))),
    ] {
        let e = node.distribute_task(reply, 10).unwrap_err();
        assert_eq!(e.message, "Task list is empty!");
    }
    let (_, effect) = node.deal_local_message(&LocalMessage::ReqNodeDistributeTask(10));
    assert!(matches!(effect, NodeEffect::GetTaskList(10)));
}

#[test]
fn distribution_goes_out_on_the_task_list_topic() {
    let mut backend = backend();
    let mut node = node_machine(&mut backend);
    let catalog = TaskModule::genesis_plan().tasks;
    let reply = Some(Message::LocalMessage(LocalMessage::GetTaskListResponse(catalog)));
    let publication = node.distribute_task(reply, 10).unwrap();
    assert_eq!(publication.peer_id, Some("peer".to_string()));
    assert_eq!(publication.topic, Topics::TaskList);
    assert!(publication.message.data.is_empty());
    // No node is active yet: nothing is assigned.
    assert_eq!(publication.message.sub_topic, SubTopics::DistributeTask(vec![]));
    assert!(node.task_distribute_list().is_empty());
    let (_, effect) = node.deal_local_message(&LocalMessage::ReqNodeDistributeTask(15));
    assert!(matches!(effect, NodeEffect::Nothing));
    let (_, effect) = node.deal_local_message(&LocalMessage::ReqNodeDistributeTask(20));
    assert!(matches!(effect, NodeEffect::GetTaskList(20)));
    let (_, effect) = node.deal_local_message(&LocalMessage::ReqNodeDistributeTask(5));
    assert!(matches!(effect, NodeEffect::Nothing));
}

#[test]
fn node_asks_and_answers_for_the_active_status() {
    let mut backend = backend();
    let node = node_machine(&mut backend);
    let asked = node.require_active_status_from_verify_node("17".into()).unwrap();
    assert_eq!(asked.topic, Topics::NodeStatus);
    assert_eq!(asked.peer_id, None);
    assert_eq!(
        asked.message.sub_topic,
        SubTopics::ReqNodeActiveStatus("principal".into(), "17".into())
    );
    let answered =
        node.verify_node_ack_node_active_status(&"other".to_string(), &"17".to_string()).unwrap();
    assert_eq!(answered.topic, Topics::NodeStatus);
    assert_eq!(
        answered.message.sub_topic,
        SubTopics::AckNodeActiveStatus(NodeActiveStatus::Actived, "17".into())
    );
}

#[test]
fn task_machine_serves_peers_and_local_messages() {
    let mut backend = backend();
    let mut task = task_machine(&mut backend);
    match task.check_task_list() {
        Some(p) => {
            assert_eq!(p.topic, Topics::TaskList);
            assert_eq!(p.message.sub_topic, SubTopics::ReqTaskList);
        }
        None => panic!("no question"),
    }
    let catalog = TaskModule::genesis_plan().tasks;
    let effect = task.deal_peer_message(&topic_message(SubTopics::AckTaskList), Some(catalog.clone()));
    assert!(matches!(effect, TaskEffect::Nothing));
    assert_eq!(*task.all_task_list(), catalog);
    assert!(task.check_task_list().is_none());
    match task.deal_peer_message(&topic_message(SubTopics::ReqTaskList), None) {
        TaskEffect::AnswerTaskList(list) => assert_eq!(list, catalog),
        _ => panic!("no answer"),
    }
    let list = vec![
        TaskDistributeData { task_id: 1, peer_id: "peer".into() },
        TaskDistributeData { task_id: 2, peer_id: "other".into() },
    ];
    match task.deal_peer_message(&topic_message(SubTopics::DistributeTask(list)), None) {
        TaskEffect::Assigned(mine) => {
            assert_eq!(mine, vec![TaskDistributeData { task_id: 1, peer_id: "peer".into() }])
        }
        _ => panic!("no assignments"),
    }
    assert!(matches!(
        task.deal_peer_message(&topic_message(SubTopics::Pong), None),
        TaskEffect::Nothing
    ));
    match task.deal_local_message(&LocalMessage::GetTaskList()) {
        (Some(Message::LocalMessage(LocalMessage::GetTaskListResponse(list))), TaskEffect::Nothing) => {
            assert_eq!(list, catalog)
        }
        _ => panic!("no catalog"),
    }
    match task.deal_local_message(&LocalMessage::InvokeTask()) {
        (None, TaskEffect::Invoke(list)) => assert_eq!(list, catalog),
        _ => panic!("nothing to run"),
    }
    match task.deal_local_message(&LocalMessage::RequireTask()) {
        (None, TaskEffect::Publish(p)) => assert_eq!(p.message.sub_topic, SubTopics::ReqTaskList),
        _ => panic!("no question"),
    }
    assert!(matches!(
        task.deal_local_message(&LocalMessage::AckKeeperInit(true)),
        (None, TaskEffect::Nothing)
    ));
}

#[test]
fn block_tick_starts_the_scratch_tries_of_the_tasks_empty() {
    let mut backend = backend();
    let mut task = task_machine(&mut backend);
    task.db.insert_task_operation(b"operation").unwrap();
    task.db.insert_task_result(b"result").unwrap();
    let operations = task.db.task_operation_db.get_root();
    assert_eq!(task.db.temp_task_operation_db.get_root(), operations);
    assert!(matches!(
        task.deal_local_message(&LocalMessage::BlockTick()),
        (None, TaskEffect::Nothing)
    ));
    assert_eq!(task.db.temp_task_operation_db.get_root(), EMPTY_ROOT);
    assert_eq!(task.db.temp_task_result_db.get_root(), EMPTY_ROOT);
    assert_eq!(task.db.task_operation_db.get_root(), operations);
}

#[test]
fn node_answers_for_its_active_status() {
    let mut backend = backend();
    let mut node = node_machine(&mut backend);
    let (reply, effect) = node.deal_local_message(&LocalMessage::ReqWorkerActiveStatus("17".into()));
    assert!(matches!(effect, NodeEffect::Nothing));
    assert!(matches!(
        reply,
        Some(Message::LocalMessage(LocalMessage::AckWorkerActiveStatus(
            NodeActiveStatus::Inactived
        )))
    ));
    let (reply, _) = node.deal_local_message(&LocalMessage::ReqWorkerActive());
    assert!(reply.is_none());
}

fn router(backend: &mut Backend) -> (Network, Caller, Caller, Caller) {
    let own = Waiter::new(0).get_caller();
    let conf = NetworkConfig { port: 4001, known_nodes: vec!["/ip4/127.0.0.1/tcp/4002".into()] };
    let mut network = Network::new(conf, own);
    let mut node = node_machine(backend);
    let mut task = task_machine(backend);
    let mut engine = engine(backend);
    network.add_module(&mut node);
    network.add_module(&mut task);
    network.add_module(&mut engine);
    assert_eq!(node.get_message_subscribe().len(), 3);
    assert!(engine.get_message_subscribe().is_empty());
    (network, own, Waiter::new(3).get_caller(), Waiter::new(4).get_caller())
}

#[test]
fn inbound_message_goes_to_the_caller_of_its_topic() {
    let mut backend = backend();
    let (network, _, node, task) = router(&mut backend);
    match network.deliver(Some("peer".into()), "KeepAlive".into(), vec![1, 2]) {
        Delivery::Notify(to, Message::NetworkMessage(m)) => {
            assert_eq!(to, node);
            assert_eq!(m.peer_id, Some("peer".to_string()));
            assert_eq!(m.topic, Topics::KeepAlive);
            assert_eq!(m.message, vec![1, 2]);
        }
        _ => panic!("not delivered"),
    }
    match network.deliver(None, "TakeTask".into(), vec![]) {
        Delivery::Notify(to, Message::NetworkMessage(m)) => {
            assert_eq!(to, task);
            assert_eq!(m.peer_id, None);
            assert_eq!(m.topic, Topics::TakeTask);
        }
        _ => panic!("not delivered"),
    }
    assert_eq!(network.route("TaskList".into()), (Topics::TaskList, Some(task)));
    assert_eq!(network.route("NodeList".into()), (Topics::NodeList, Some(node)));
    assert_eq!(network.route("NewBlock".into()), (Topics::NewBlock, Some(node)));
}

#[test]
fn last_registration_for_a_topic_takes_it() {
    let mut backend = backend();
    let (mut network, _, node, _) = router(&mut backend);
    let mut late = NodeModule::new(
        NodeConfig { principal_id: "late".to_string() },
        "late".to_string(),
        vec![],
        vec![],
        node_tries(&mut self::backend()),
        Waiter::new(9).get_caller(),
    )
    .unwrap();
    assert_eq!(network.route("KeepAlive".into()).1, Some(node));
    network.add_module(&mut late);
    assert_eq!(network.route("KeepAlive".into()).1, Some(Waiter::new(9).get_caller()));
    assert_eq!(network.route("TakeTask".into()).1, Some(Waiter::new(4).get_caller()));
}

#[test]
fn inbound_message_without_a_caller_is_dropped() {
    let mut backend = backend();
    let (network, _, _, _) = router(&mut backend);
    assert!(matches!(network.deliver(None, "Vote".into(), vec![1]), Delivery::Dropped));
    assert!(matches!(network.deliver(None, "weather".into(), vec![1]), Delivery::Dropped));
    assert_eq!(network.route("weather".into()), (Topics::Unknown("weather".into()), None));
    assert_eq!(network.config().port, 4001);
}

#[test]
fn outbound_network_message_is_published_on_its_topic() {
    let message = Message::NetworkMessage(NetworkMessage {
        peer_id: None,
        topic: Topics::TaskList,
        message: vec![7, 8],
    });
    assert_eq!(Network::publish(message), Some(("TaskList".to_string(), vec![7, 8])));
    let local = Message::LocalMessage(LocalMessage::AckWorkerActiveStatus(NodeActiveStatus::Actived));
    assert_eq!(Network::publish(local), None);
}

#[test]
fn router_joins_the_sync_topic_and_every_registered_topic() {
    let mut backend = backend();
    let (network, _, _, _) = router(&mut backend);
    assert_eq!(
        network.topics_to_join(),
        vec!["DataSync", "NodeList", "NewBlock", "KeepAlive", "TakeTask", "TaskList"]
    );
}

fn drive_init(
    node: &mut NodeModule,
    engine: &mut BlockchainModule,
    task: &mut TaskModule,
    keeper: KeeperCheck,
) -> InitAction {
    let (reply, effect) = node.deal_local_message(&LocalMessage::ReqKeeperInit());
    assert!(reply.is_none());
    let mut action = match effect {
        NodeEffect::Init(action) => action,
        _ => panic!("the initialisation did not start"),
    };
    let mut keeper = Some(keeper);
    loop {
        let event = match action {
            InitAction::Done | InitAction::Fail(_) => return action,
            InitAction::Call(InitTarget::Blockchain, request) => {
                InitEvent::Reply(engine.deal_local_message(&request).0)
            }
            InitAction::Call(InitTarget::Task, request) => {
                assert!(matches!(task.deal_local_message(&request).1, TaskEffect::Genesis));
                let plan = TaskModule::genesis_plan();
                let request = task.genesis_store(&plan, &encoding()).unwrap();
                let reply = engine.deal_local_message(&request).0;
                let made = task.genesis_init_task(plan, reply).is_ok();
                InitEvent::Reply(Some(TaskModule::genesis_reply(made)))
            }
            InitAction::AskKeepers => InitEvent::Keepers(keeper.take().unwrap()),
            InitAction::Sign(_) => InitEvent::Signature(Some(vec![1, 2, 3])),
            InitAction::Encode(..) => InitEvent::Encoded(b"node".to_vec(), b"signed".to_vec()),
        };
        action = node.verify_node_init(event);
    }
}

#[test]
fn genesis_block_holds_the_activation_and_the_seed_tasks() {
    let mut backend = backend();
    let mut engine = engine(&mut backend);
    engine.set_node_caller(Waiter::new(3).get_caller());
    let mut node = node_machine(&mut backend);
    let mut task = task_machine(&mut backend);
    let done = drive_init(&mut node, &mut engine, &mut task, KeeperCheck::Keeper);
    assert!(matches!(done, InitAction::Done));
    {
        let block = engine.current_block();
        assert_eq!(block.header.index, 0);
        assert_eq!(block.body.node_activation.len(), 1);
        assert_eq!(block.body.node_activation[0].data.peer_id, "peer");
        assert_eq!(block.body.node_activation[0].data.operation, ActivationOperation::Activate);
        assert_eq!(block.body.node_activation[0].signature, vec![1, 2, 3]);
        assert_eq!(block.body.tasks, TaskModule::genesis_plan().operations);
        assert_eq!(block.header.node_root, node.node_db.node_db.get_root());
        assert_eq!(block.header.node_activation_root, node.node_db.node_active_db.get_root());
        assert_eq!(
            block.header.current_node_activation_root,
            node.node_db.temp_node_active_db.get_root()
        );
        assert_eq!(block.header.task_root, task.db.task_db.get_root());
        assert_eq!(block.header.task_operation_root, task.db.task_operation_db.get_root());
        assert_eq!(
            block.header.current_task_operation_root,
            task.db.temp_task_operation_db.get_root()
        );
    }
    assert_eq!(*task.all_task_list(), TaskModule::genesis_plan().tasks);
    assert_eq!(task.db.task_db.get(&hash(b"task one")).unwrap(), Some(b"task one".to_vec()));
    assert_eq!(task.db.task_db.get(&hash(b"task two")).unwrap(), Some(b"task two".to_vec()));
    // The cadence was started by the initialisation.
    assert_eq!(engine.start_tick().unwrap(), false);
    assert_eq!(engine.latest_hash().unwrap(), None);
    let outcome = engine.pack_block(b"header 0", b"body 0", b"block 0");
    assert!(outcome.packed);
    assert_eq!(engine.latest_hash().unwrap(), Some(hash(b"block 0")));
    assert_eq!(
        engine.blocks().get_block_by_index(0).unwrap(),
        (b"header 0".to_vec(), b"body 0".to_vec())
    );
    // A second initialisation is rejected, and the blocks go on.
    let again = drive_init(&mut node, &mut engine, &mut task, KeeperCheck::Keeper);
    assert_eq!(fail_text(again), "node had inited");
    assert_eq!(engine.current_block().header.index, 1);
    // Once ten blocks are packed, the tasks are distributed, once.
    let mut notification = outcome.notify;
    let mut published = Vec::new();
    for _ in 1..15 {
        let (to, message) = notification.take().unwrap();
        assert_eq!(to, Waiter::new(3).get_caller());
        let (_, effect) = node.deal_local_message(&message);
        if let NodeEffect::GetTaskList(at) = effect {
            let catalog = task.deal_local_message(&LocalMessage::GetTaskList()).0;
            published.push((at, node.distribute_task(catalog, at).unwrap()));
        }
        notification = engine.pack_block(b"header", b"body", b"block").notify;
    }
    assert_eq!(published.len(), 1);
    assert_eq!(published[0].0, 10);
    assert_eq!(published[0].1.topic, Topics::TaskList);
    assert!(matches!(published[0].1.message.sub_topic, SubTopics::DistributeTask(_)));
    assert_eq!(engine.current_block().header.index, 15);
}

#[test]
fn init_of_a_node_that_is_no_keeper_leaves_the_chain_empty() {
    let mut backend = backend();
    let mut engine = engine(&mut backend);
    let mut node = node_machine(&mut backend);
    let mut task = task_machine(&mut backend);
    let failed = drive_init(&mut node, &mut engine, &mut task, KeeperCheck::NotKeeper);
    assert!(matches!(
        NodeModule::init_reply(&failed),
        Some(Message::LocalMessage(LocalMessage::AckKeeperInit(false)))
    ));
    assert_eq!(*engine.current_block(), Block::default());
    assert_eq!(engine.start_tick().unwrap(), true);
    assert!(task.all_task_list().is_empty());
    assert_eq!(engine.latest_hash().unwrap(), None);
}

#[derive(Default, Clone)]
struct EmptyValues;

impl TrieLayout for EmptyValues {
    const USE_EXTENSION: bool = true;
    const ALLOW_EMPTY: bool = true;
    const MAX_INLINE_VALUE: Option<u32> = None;
    type Hash = KeccakHasher;
    type Codec = ReferenceNodeCodec;
}

#[test]
fn node_store_refuses_a_layout_with_other_parameters() {
    let mut backend = backend();
    let other = Unchecked::new::<EmptyValues, Glue>(column(&mut backend, COL_NODE_LIST));
    assert!(NodeStore::new(other).is_none());
    let same = Unchecked::new::<Layout, Glue>(column(&mut backend, COL_ACCOUNT));
    assert!(NodeStore::new(same).is_some());
    assert!(Parameters::has_parameters(true, false, None));
    assert!(!Parameters::has_parameters(false, false, None));
    assert!(!Parameters::has_parameters(true, false, Some(32)));
}

#[test]
fn each_machine_hands_out_the_caller_of_its_own_waiter() {
    let mut backend = backend();
    assert_eq!(engine(&mut backend).get_message_caller(), Waiter::new(1).get_caller());
    assert_eq!(node_machine(&mut backend).get_message_caller(), Waiter::new(3).get_caller());
    assert_eq!(task_machine(&mut backend).get_message_caller(), Waiter::new(4).get_caller());
}

#[test]
fn codec_adaptor_agrees_with_the_codec() {
    assert_eq!(<ReferenceNodeCodec as NodeCodec>::hashed_null_node(), EMPTY_ROOT);
    assert!(<ReferenceNodeCodec as NodeCodec>::is_empty_node(&[0x00]));
    assert!(!<ReferenceNodeCodec as NodeCodec>::is_empty_node(&[]));
    assert!(!<ReferenceNodeCodec as NodeCodec>::is_empty_node(&[0x00, 0x00]));
    assert!(!<ReferenceNodeCodec as NodeCodec>::is_empty_node(&[0x40]));
}

#[test]
fn a_handle_parts_with_what_it_hands_on() {
    let mut main = backend();
    assert!(main.has_named(COL_EXTRA) && main.has_nodes(COL_EXTRA));
    assert!(!main.has_named(NUM_COLUMNS) && !main.has_nodes(NUM_COLUMNS));
    let mut pointers = main.take_named(COL_EXTRA).unwrap();
    assert!(pointers.has_named(COL_EXTRA) && !pointers.has_nodes(COL_EXTRA));
    assert!(!pointers.has_named(COL_ACCOUNT));
    assert!(!main.has_named(COL_EXTRA) && main.has_nodes(COL_EXTRA));
    assert!(main.take_named(COL_EXTRA).is_none());
    assert!(main.take_named(NUM_COLUMNS).is_none());
    // What one handle writes, the handle that holds the column reads.
    pointers.write_one(COL_EXTRA, b"key", Some(b"value")).unwrap();
    assert_eq!(pointers.read(COL_EXTRA, b"key").unwrap(), Some(b"value".to_vec()));
    assert!(pointers.has_key(COL_EXTRA, b"key").unwrap());
    let refused = "the handle does not hold the column";
    assert_eq!(main.read(COL_EXTRA, b"key").unwrap_err().message, refused);
    assert_eq!(main.write_one(COL_EXTRA, b"key", None).unwrap_err().message, refused);
    assert_eq!(pointers.read(COL_ACCOUNT, b"key").unwrap_err().message, refused);
    assert_eq!(pointers.read(COL_EXTRA, &[0u8; 32]).unwrap_err().message, refused);
    // Columns go from handle to handle.
    assert!(pointers.join_named(&mut main, COL_ACCOUNT));
    assert!(!pointers.join_named(&mut main, COL_ACCOUNT));
    assert!(pointers.has_named(COL_ACCOUNT) && !main.has_named(COL_ACCOUNT));
    assert_eq!(pointers.read(COL_EXTRA, b"key").unwrap(), Some(b"value".to_vec()));
    let view = main.take_nodes(COL_EXTRA).unwrap();
    assert!(view.has_nodes(COL_EXTRA) && !main.has_nodes(COL_EXTRA));
    assert!(main.take_nodes(COL_EXTRA).is_none());
    assert!(DB::new(view, COL_ACCOUNT).is_err());
    assert!(DB::new(main, NUM_COLUMNS).is_err());
}

#[test]
fn chain_without_its_columns_is_refused() {
    let mut main = backend();
    let headers = nodes(&mut main, COL_BLOCK_HEADERS);
    let bodies = nodes(&mut main, COL_BLOCK_BODIES);
    let only_pointers = main.take_named(COL_EXTRA).unwrap();
    assert!(BlockchainDB::new(only_pointers, headers, bodies).is_err());
    let mut main = backend();
    let headers = nodes(&mut main, COL_BLOCK_HEADERS);
    let bodies = nodes(&mut main, COL_BLOCK_BODIES);
    let no_pointers = named(&mut main, &[COL_BLOCK_HEADERS, COL_BLOCK_BODIES]);
    let mut chain = BlockchainDB::new(no_pointers, headers, bodies).unwrap();
    let header_root = chain.header_db.get_root();
    assert!(chain.insert_block(0, b"header", b"body", b"block").is_err());
    assert_eq!(chain.header_db.get_root(), header_root);
    assert!(chain.latest_hash().is_err());
    assert_eq!(get_latest_hash(&main).unwrap(), None);
}

#[test]
fn first_block_after_a_restart_links_to_the_block_packed_last() {
    let disk = disk();
    {
        let mut engine = engine(&mut start(&disk));
        assert!(engine.is_linked());
        assert!(engine.pack_block(b"header 0", b"body 0", b"block 0").packed);
        assert!(engine.is_linked());
    }
    let mut engine = engine(&mut start(&disk));
    assert_eq!(engine.latest_hash().unwrap(), Some(hash(b"block 0")));
    assert_eq!(engine.current_block().header.previous_hash, [0u8; 32]);
    assert!(!engine.is_linked());
    // A block that does not link to the chain is not packed.
    let outcome = engine.pack_block(b"header", b"body", b"block");
    assert!(!outcome.packed);
    assert_eq!(engine.latest_hash().unwrap(), Some(hash(b"block 0")));
    assert!(engine.blocks().get_block_by_hash(&hash(b"block")).is_err());
    // The tick links the block before it is encoded.
    let (answer, effect) = engine.deal_local_message(&LocalMessage::ReqBlockPack());
    assert!(answer.is_none());
    assert_eq!(effect, BlockEffect::Pack);
    assert_eq!(engine.current_block().header.previous_hash, hash(b"block 0"));
    let index = engine.current_block().header.index;
    let mut expected = Block::default();
    expected.header.index = index;
    expected.header.previous_hash = hash(b"block 0");
    assert_eq!(*engine.current_block(), expected);
    let outcome = engine.pack_block(b"header 1", b"body 1", b"block 1");
    assert!(outcome.packed);
    assert_eq!(engine.latest_hash().unwrap(), Some(hash(b"block 1")));
    assert_eq!(engine.current_block().header.previous_hash, hash(b"block 1"));
    engine.link_block().unwrap();
    assert_eq!(engine.current_block().header.previous_hash, hash(b"block 1"));
}

#[test]
fn what_was_read_decides_what_a_lookup_returns() {
    assert_eq!(pointer_of(None), None);
    assert_eq!(pointer_of(Some(vec![1u8; 31])), None);
    assert_eq!(pointer_of(Some(vec![1u8; 33])), None);
    assert_eq!(pointer_of(Some(vec![1u8; 32])), Some([1u8; 32]));
    assert_eq!(hash_at(Some(vec![2u8; 32])).unwrap(), [2u8; 32]);
    assert_eq!(hash_at(None).unwrap_err().message, "block index not found");
    assert_eq!(hash_at(Some(vec![2u8; 5])).unwrap_err().message, "block index not found");
    assert_eq!(block_parts(Some(vec![1]), Some(vec![2])).unwrap(), (vec![1], vec![2]));
    assert_eq!(block_parts(None, Some(vec![2])).unwrap_err().message, "block not found");
    assert_eq!(block_parts(Some(vec![1]), None).unwrap_err().message, "block not found");
    assert_eq!(block_parts(None, None).unwrap_err().message, "block not found");
    assert_eq!(root_of(None), [0u8; 32]);
    assert_eq!(root_of(Some(vec![3u8; 32])), [3u8; 32]);
    assert_eq!(root_of(Some(vec![3u8; 31])), [0u8; 32]);
    assert!(links_to(&[0u8; 32], None));
    assert!(!links_to(&[4u8; 32], None));
    assert!(links_to(&[4u8; 32], Some([4u8; 32])));
    assert!(!links_to(&[0u8; 32], Some([4u8; 32])));
    assert_eq!(link(None), [0u8; 32]);
    assert_eq!(link(Some([4u8; 32])), [4u8; 32]);
}

#[test]
fn lasting_trie_keeps_its_root_in_its_column() {
    let disk = disk();
    let (first, second) = {
        let mut main = start(&disk);
        let store = nodes(&mut main, COL_ACCOUNT);
        let handle = main.take_named(COL_ACCOUNT).unwrap();
        let mut trie = AppDB::open(store, handle, COL_ACCOUNT).unwrap();
        assert_eq!(trie.get_root(), EMPTY_ROOT);
        assert_eq!(trie.kept_root().unwrap(), Some([0u8; 32]));
        trie.insert(b"a", b"1").unwrap();
        let first = trie.get_root();
        assert_eq!(trie.kept_root().unwrap(), Some(first));
        trie.multi_insert(vec![(b"b".as_slice(), b"2".as_slice())]).unwrap();
        assert_eq!(trie.kept_root().unwrap(), Some(trie.get_root()));
        trie.remove(b"b").unwrap();
        assert_eq!(trie.get_root(), first);
        assert_eq!(trie.kept_root().unwrap(), Some(first));
        trie.insert_record(b"record").unwrap();
        let second = trie.get_root();
        trie.restore(first).unwrap();
        assert_eq!(trie.kept_root().unwrap(), Some(first));
        trie.restore(second).unwrap();
        // The handle that parted with the column opens no second trie on it.
        assert!(AppDB::open(scratch(), main, COL_ACCOUNT).is_err());
        (first, second)
    };
    assert_ne!(first, second);
    let mut main = start(&disk);
    assert_eq!(get_root(&main, COL_ACCOUNT).unwrap(), second);
    let store = nodes(&mut main, COL_ACCOUNT);
    let trie = AppDB::open(store, main, COL_ACCOUNT).unwrap();
    assert_eq!(trie.get_root(), second);
    assert_eq!(trie.get(b"a").unwrap(), Some(b"1".to_vec()));
    assert_eq!(trie.get(&hash(b"record")).unwrap(), Some(b"record".to_vec()));
    // A scratch trie keeps its root nowhere.
    let mut scratch = AppDB::empty(scratch());
    scratch.insert(b"a", b"1").unwrap();
    assert_eq!(scratch.kept_root().unwrap(), None);
    assert_eq!(scratch.get_root(), first);
}

#[test]
fn store_without_the_columns_it_was_said_to_have_is_refused() {
    assert!(Backend::new(Store::new(kvdb_memorydb::create(3)), 4).is_none());
    assert!(Backend::new(Store::new(kvdb_memorydb::create(0)), 1).is_none());
    assert!(Backend::new(Store::new(kvdb_memorydb::create(0)), 0).is_some());
    let mut fewer = Backend::new(Store::new(kvdb_memorydb::create(3)), 2).unwrap();
    assert!(fewer.has_named(1) && !fewer.has_named(2));
    assert!(fewer.write_one(2, b"key", Some(b"value")).is_err());
    fewer.write_one(1, b"key", Some(b"value")).unwrap();
    assert_eq!(fewer.read(1, b"key").unwrap(), Some(b"value".to_vec()));
}

#[test]
fn a_handle_goes_through_the_columns_that_it_holds_whole() {
    let mut main = backend();
    main.write_one(COL_ACCOUNT, b"b", Some(b"2")).unwrap();
    main.write_one(COL_ACCOUNT, b"a", Some(b"1")).unwrap();
    main.write_one(COL_ACCOUNT, &[7u8; 40], Some(b"node")).unwrap();
    main.write_one(COL_ACCOUNT, b"b", None).unwrap();
    let mut pairs = main.entries(COL_ACCOUNT).unwrap();
    pairs.sort();
    assert_eq!(pairs, vec![(vec![7u8; 40], b"node".to_vec()), (b"a".to_vec(), b"1".to_vec())]);
    assert!(main.entries(COL_EXTRA).unwrap().is_empty());
    let _nodes = main.take_nodes(COL_ACCOUNT).unwrap();
    assert_eq!(
        main.entries(COL_ACCOUNT).unwrap_err().message,
        "the handle does not hold the column"
    );
    assert!(main.entries(NUM_COLUMNS).is_err());
}

#[test]
fn error_of_a_block_tells_the_step_that_failed() {
    let mut backend = backend();
    let mut chain = chain(&mut backend);
    chain.body_db.restore([3u8; 32]).unwrap();
    let error = chain.insert_block(0, b"header", b"body", b"block").unwrap_err();
    assert!(error.message.starts_with(PARTS_FAILED), "{}", error.message);
    assert!(!error.message.starts_with(POINTERS_FAILED));
    assert_eq!(chain.latest_hash().unwrap(), None);
    let mut main = self::backend();
    let headers = nodes(&mut main, COL_BLOCK_HEADERS);
    let bodies = nodes(&mut main, COL_BLOCK_BODIES);
    let no_pointers = named(&mut main, &[COL_BLOCK_HEADERS, COL_BLOCK_BODIES]);
    let mut chain = BlockchainDB::new(no_pointers, headers, bodies).unwrap();
    let error = chain.insert_block(0, b"header", b"body", b"block").unwrap_err();
    assert_eq!(error.message, "pointers: the handle does not hold the column");
    assert!(error.message.starts_with(POINTERS_FAILED));
}
