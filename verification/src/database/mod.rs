//! The authenticated store: the node codec of the tries, the columns of the
//! key-value backend, and the roots that the columns keep.

use self::db::{bytes_view, lookup, Backend};
use self::trie::{
    canonical, no_entries, trie_empty, trie_entries, trie_error_text, trie_get, trie_insert,
    trie_remove, with_entry, NodeStore,
};
use self::error::{DatabaseError, Result};
use self::keccak::{keccak256, Hash256};
use vstd::prelude::*;

pub mod compact;
pub mod data_types;
pub mod db;
pub mod error;
pub mod keccak;
pub mod store_laws;
pub mod trie;
pub mod trie_decode;
pub mod trie_laws;
pub mod trie_layout;

verus! {

/// The key under which a column keeps the root of its trie.
pub const KEY_ROOT: [u8; 4] = [0x72, 0x6f, 0x6f, 0x74];

/// Keys of a trie have at most this many bytes: a longer key has paths
/// that no node header can announce.
pub const MAX_KEY_LENGTH: usize = 63;

/// Thirty-two zero bytes: what a column without a root gives.
pub open spec fn zero_root() -> Seq<u8> {
    Seq::new(32, |i: int| 0u8)
}

/// Whether a root is 32 zero bytes.
pub fn is_zero_root(root: &Hash256) -> (zero: bool)
    ensures
        zero == (root@ == zero_root()),
{
    let mut i: usize = 0;
    while i < 32
        invariant
            i <= 32,
            forall|j: int| 0 <= j < i ==> root@[j] == 0,
        decreases 32 - i,
    {
        if root[i] != 0 {
            assert(root@[i as int] != zero_root()[i as int]);
            return false;
        }
        i += 1;
    }
    assert(root@ =~= zero_root());
    true
}

/// A trie over a node store: the store and the root. A lasting trie has
/// the handle that holds the named entries of its column besides, and
/// keeps its root there under [`KEY_ROOT`] with every change.
pub struct AppDB {
    db: NodeStore,
    root: Hash256,
    keep: Option<Backend>,
    column: u32,
}

/// A key and a value, as byte strings.
pub type Entry = (Seq<u8>, Seq<u8>);

/// What a trie holds after the entries of `data` were put in, in order.
pub open spec fn with_entries(entries: Map<Seq<u8>, Seq<u8>>, data: Seq<Entry>) -> Map<Seq<u8>, Seq<u8>>
    decreases data.len(),
{
    if data.len() == 0 {
        entries
    } else {
        with_entry(with_entries(entries, data.drop_last()), data.last().0, data.last().1)
    }
}

/// What a trie holds after the keys of `keys` were taken out, in order.
pub open spec fn remove_all(entries: Map<Seq<u8>, Seq<u8>>, keys: Seq<Seq<u8>>) -> Map<
    Seq<u8>,
    Seq<u8>,
>
    decreases keys.len(),
{
    if keys.len() == 0 {
        entries
    } else {
        remove_all(entries, keys.drop_last()).remove(keys.last())
    }
}

/// The entries of a batch as byte strings.
pub open spec fn entries_view(data: Seq<(&[u8], &[u8])>) -> Seq<Entry> {
    Seq::new(data.len(), |i: int| (data[i].0@, data[i].1@))
}

/// The keys of a batch as byte strings.
pub open spec fn keys_view(keys: Seq<&[u8]>) -> Seq<Seq<u8>> {
    Seq::new(keys.len(), |i: int| keys[i]@)
}

/// Turns the failure of a trie into the error of this module:
/// [`DatabaseError::new`] of the text that the failure is formatted to.
fn trie_failed(cause: self::trie::TrieFailure) -> DatabaseError {
    DatabaseError::new(trie_error_text(&cause))
}

impl AppDB {
    /// The root of the trie.
    pub closed spec fn root(&self) -> Seq<u8> {
        self.root@
    }

    /// The node store of the trie.
    pub closed spec fn store(&self) -> NodeStore {
        self.db
    }

    /// What the trie holds: what lookups find in its store under its root.
    pub open spec fn entries(&self) -> Map<Seq<u8>, Seq<u8>> {
        trie_entries(self.store(), self.root())
    }

    /// The root is the root of exactly what the trie holds. Every trie
    /// that was made empty is so, and one that is so stays so when it is
    /// changed through this type.
    pub open spec fn wf(&self) -> bool {
        canonical(self.store(), self.root())
    }

    /// The root that the trie's column keeps for it; `None` for a trie
    /// that keeps its root nowhere.
    pub closed spec fn kept(&self) -> Option<Seq<u8>> {
        match self.keep {
            Some(handle) => Some(stored_root(lookup(handle.column(self.column), KEY_ROOT@))),
            None => None,
        }
    }

    /// The column that a lasting trie keeps its root in; `None` for a trie
    /// that keeps its root nowhere.
    pub closed spec fn column(&self) -> Option<u32> {
        match self.keep {
            Some(_) => Some(self.column),
            None => None,
        }
    }

    /// Whether the trie is a lasting one: it keeps its root in a column.
    pub open spec fn lasting(&self) -> bool {
        self.kept() is Some
    }

    /// Whether the trie is a lasting one under the root that its column
    /// keeps, as it is right after [`AppDB::open`].
    pub open spec fn as_opened(&self) -> bool {
        match self.kept() {
            Some(root) => opened(*self, root),
            None => false,
        }
    }

    /// Where the trie keeps its root, the column holds the root it has.
    pub open spec fn keeps_root(&self) -> bool {
        match self.kept() {
            Some(root) => root == self.root(),
            None => true,
        }
    }

    /// The trie under `root` in `db`, which keeps its root nowhere. A root
    /// of 32 zero bytes, which is what a column without a root gives,
    /// stands for the empty trie.
    pub fn new(db: NodeStore, root: Hash256) -> (res: Result<AppDB>)
        ensures
            res is Ok,
            opened(res.unwrap(), root@),
            res.unwrap().kept() is None,
            res.unwrap().column() is None,
    {
        let mut db = db;
        let root = if is_zero_root(&root) {
            trie_empty(&mut db)
        } else {
            root
        };
        Ok(AppDB { db, root, keep: None, column: 0 })
    }

    /// The empty trie in `db`, which keeps its root nowhere.
    pub fn empty(db: NodeStore) -> (trie: AppDB)
        ensures
            trie.entries() == no_entries(),
            trie.root() == keccak256(seq![0u8]),
            trie.wf(),
            trie.kept() is None,
            trie.column() is None,
    {
        let mut db = db;
        let root = trie_empty(&mut db);
        AppDB { db, root, keep: None, column: 0 }
    }

    /// The lasting trie of a column: in `db`, under the root that the
    /// column keeps, read with [`get_root`] through `handle`, where the
    /// trie will keep its root from now on. It fails where the read fails,
    /// and where the handle does not hold the named entries of the column.
    pub fn open(db: NodeStore, handle: Backend, column: u32) -> (res: Result<AppDB>)
        ensures
            !handle.holds_named(column) ==> self::db::refused(res),
            res matches Ok(trie) ==> {
                let kept = stored_root(lookup(handle.column(column), KEY_ROOT@));
                &&& opened(trie, kept)
                &&& trie.kept() == Some(kept)
                &&& trie.column() == Some(column)
                &&& trie.as_opened()
            },
    {
        let root = match get_root(&handle, column) {
            Ok(root) => root,
            Err(e) => {
                return Err(e);
            },
        };
        let mut db = db;
        let root = if is_zero_root(&root) {
            trie_empty(&mut db)
        } else {
            root
        };
        Ok(AppDB { db, root, keep: Some(handle), column })
    }

    /// Keeps the root in the trie's column, where it has one.
    fn keep_root(&mut self) -> (res: Result<()>)
        ensures
            final(self).store() == old(self).store(),
            final(self).root() == old(self).root(),
            final(self).kept() is Some == old(self).kept() is Some,
            final(self).column() == old(self).column(),
            res is Ok ==> final(self).keeps_root(),
    {
        match self.keep.take() {
            Some(handle) => {
                let mut handle = handle;
                let res = save_root(&mut handle, self.column, &self.root);
                self.keep = Some(handle);
                res
            },
            None => Ok(()),
        }
    }

    /// The root that the trie's column keeps for it, read through the
    /// trie's handle; `None` for a trie that keeps its root nowhere.
    pub fn kept_root(&self) -> (res: Result<Option<Hash256>>)
        ensures
            res matches Ok(root) ==> match root {
                Some(r) => Some(r@),
                None => None,
            } == self.kept(),
            self.kept() is None ==> res is Ok,
    {
        match &self.keep {
            Some(handle) => match get_root(handle, self.column) {
                Ok(root) => Ok(Some(root)),
                Err(e) => Err(e),
            },
            None => Ok(None),
        }
    }

    /// What the trie holds under `key`.
    pub fn get(&self, key: &[u8]) -> (res: Result<Option<Vec<u8>>>)
        ensures
            res matches Ok(value) ==> bytes_view(value) == lookup(self.entries(), key@),
    {
        match trie_get(&self.db, &self.root, key) {
            Ok(value) => Ok(value),
            Err(e) => Err(trie_failed(e)),
        }
    }

    /// Puts `value` under `key` and commits: the root becomes the root of
    /// the new entries, and a lasting trie keeps it in its column. An
    /// empty value takes the key out. The key is read back under the new
    /// root, so that a trie whose new nodes were not written does not pass
    /// for changed. Where a step fails, the root stays what it was.
    pub fn insert(&mut self, key: &[u8], value: &[u8]) -> (res: Result<()>)
        requires
            key@.len() <= MAX_KEY_LENGTH,
            value@.len() <= u32::MAX,
        ensures
            final(self).kept() is Some == old(self).kept() is Some,
            final(self).column() == old(self).column(),
            res is Ok ==> final(self).entries() == with_entry(old(self).entries(), key@, value@),
            res is Ok && old(self).wf() ==> final(self).wf(),
            res is Ok ==> final(self).keeps_root(),
            res is Err ==> final(self).root() == old(self).root(),
    {
        let before = self.root;
        match self.put(key, value) {
            Ok(()) => {},
            Err(e) => {
                self.root = before;
                return Err(e);
            },
        }
        match self.keep_root() {
            Ok(()) => Ok(()),
            Err(e) => {
                self.root = before;
                Err(e)
            },
        }
    }

    /// Puts `value` under `key`, commits, and reads the key back.
    fn put(&mut self, key: &[u8], value: &[u8]) -> (res: Result<()>)
        requires
            key@.len() <= MAX_KEY_LENGTH,
            value@.len() <= u32::MAX,
        ensures
            final(self).kept() == old(self).kept(),
            final(self).column() == old(self).column(),
            res is Ok ==> final(self).entries() == with_entry(old(self).entries(), key@, value@),
            res is Ok && old(self).wf() ==> final(self).wf(),
    {
        match trie_insert(&mut self.db, &mut self.root, key, value) {
            Ok(()) => {},
            Err(e) => {
                return Err(trie_failed(e));
            },
        }
        match trie_get(&self.db, &self.root, key) {
            Ok(_) => Ok(()),
            Err(e) => Err(trie_failed(e)),
        }
    }

    /// Takes `key` out, commits, and reads the key back.
    fn take_out(&mut self, key: &[u8]) -> (res: Result<()>)
        requires
            key@.len() <= MAX_KEY_LENGTH,
        ensures
            final(self).kept() == old(self).kept(),
            final(self).column() == old(self).column(),
            res is Ok ==> final(self).entries() == old(self).entries().remove(key@),
            res is Ok && old(self).wf() ==> final(self).wf(),
    {
        match trie_remove(&mut self.db, &mut self.root, key) {
            Ok(()) => {},
            Err(e) => {
                return Err(trie_failed(e));
            },
        }
        match trie_get(&self.db, &self.root, key) {
            Ok(_) => Ok(()),
            Err(e) => Err(trie_failed(e)),
        }
    }

    /// Puts every entry of `data` in, in order. The root moves once, and
    /// a lasting trie keeps it once, after the last entry: where one of
    /// the entries fails, the root stays what it was before the first.
    pub fn multi_insert(&mut self, data: Vec<(&[u8], &[u8])>) -> (res: Result<()>)
        requires
            forall|i: int|
                0 <= i < data@.len() ==> (#[trigger] data@[i]).0@.len() <= MAX_KEY_LENGTH
                    && data@[i].1@.len() <= u32::MAX,
        ensures
            res is Ok ==> final(self).entries() == with_entries(
                old(self).entries(),
                entries_view(data@),
            ),
            res is Ok && old(self).wf() ==> final(self).wf(),
            res is Ok && data@.len() == 0 ==> final(self).root() == old(self).root(),
            res is Ok ==> final(self).keeps_root(),
            final(self).kept() is Some == old(self).kept() is Some,
            final(self).column() == old(self).column(),
            res is Err ==> final(self).root() == old(self).root(),
    {
        let before = self.root;
        let ghost all = entries_view(data@);
        let mut i: usize = 0;
        assert(all.take(0) =~= Seq::empty());
        while i < data.len()
            invariant
                i <= data@.len(),
                all == entries_view(data@),
                before@ == old(self).root(),
                self.entries() == with_entries(old(self).entries(), all.take(i as int)),
                self.kept() == old(self).kept(),
                self.column() == old(self).column(),
                old(self).wf() ==> self.wf(),
                i == 0 ==> self.root() == old(self).root(),
                forall|j: int|
                    0 <= j < data@.len() ==> (#[trigger] data@[j]).0@.len() <= MAX_KEY_LENGTH
                        && data@[j].1@.len() <= u32::MAX,
            decreases data@.len() - i,
        {
            let (key, value) = data[i];
            match self.put(key, value) {
                Ok(()) => {},
                Err(e) => {
                    self.root = before;
                    return Err(e);
                },
            }
            proof {
                assert(all.take(i + 1).drop_last() =~= all.take(i as int));
                assert(all.take(i + 1).last() == (key@, value@));
            }
            i += 1;
        }
        assert(all.take(i as int) =~= all);
        match self.keep_root() {
            Ok(()) => Ok(()),
            Err(e) => {
                self.root = before;
                Err(e)
            },
        }
    }

    /// Takes `key` out and commits; a lasting trie keeps the new root in
    /// its column. Where a step fails, the root stays what it was.
    pub fn remove(&mut self, key: &[u8]) -> (res: Result<()>)
        requires
            key@.len() <= MAX_KEY_LENGTH,
        ensures
            final(self).kept() is Some == old(self).kept() is Some,
            final(self).column() == old(self).column(),
            res is Ok ==> final(self).entries() == old(self).entries().remove(key@),
            res is Ok && old(self).wf() ==> final(self).wf(),
            res is Ok ==> final(self).keeps_root(),
            res is Err ==> final(self).root() == old(self).root(),
    {
        let before = self.root;
        match self.take_out(key) {
            Ok(()) => {},
            Err(e) => {
                self.root = before;
                return Err(e);
            },
        }
        match self.keep_root() {
            Ok(()) => Ok(()),
            Err(e) => {
                self.root = before;
                Err(e)
            },
        }
    }

    /// Takes every key of `keys` out, in order. The root moves once, and
    /// a lasting trie keeps it once, after the last key: where one of the
    /// keys fails, the root stays what it was before the first.
    pub fn multi_remove(&mut self, keys: Vec<&[u8]>) -> (res: Result<()>)
        requires
            forall|i: int| 0 <= i < keys@.len() ==> (#[trigger] keys@[i])@.len() <= MAX_KEY_LENGTH,
        ensures
            res is Ok ==> final(self).entries() == remove_all(
                old(self).entries(),
                keys_view(keys@),
            ),
            res is Ok && old(self).wf() ==> final(self).wf(),
            res is Ok && keys@.len() == 0 ==> final(self).root() == old(self).root(),
            res is Ok ==> final(self).keeps_root(),
            final(self).kept() is Some == old(self).kept() is Some,
            final(self).column() == old(self).column(),
            res is Err ==> final(self).root() == old(self).root(),
    {
        let before = self.root;
        let ghost all = keys_view(keys@);
        let mut i: usize = 0;
        assert(all.take(0) =~= Seq::empty());
        while i < keys.len()
            invariant
                i <= keys@.len(),
                all == keys_view(keys@),
                before@ == old(self).root(),
                self.entries() == remove_all(old(self).entries(), all.take(i as int)),
                self.kept() == old(self).kept(),
                self.column() == old(self).column(),
                old(self).wf() ==> self.wf(),
                i == 0 ==> self.root() == old(self).root(),
                forall|j: int|
                    0 <= j < keys@.len() ==> (#[trigger] keys@[j])@.len() <= MAX_KEY_LENGTH,
            decreases keys@.len() - i,
        {
            let key = keys[i];
            match self.take_out(key) {
                Ok(()) => {},
                Err(e) => {
                    self.root = before;
                    return Err(e);
                },
            }
            proof {
                assert(all.take(i + 1).drop_last() =~= all.take(i as int));
                assert(all.take(i + 1).last() == key@);
            }
            i += 1;
        }
        assert(all.take(i as int) =~= all);
        match self.keep_root() {
            Ok(()) => Ok(()),
            Err(e) => {
                self.root = before;
                Err(e)
            },
        }
    }

    /// Goes back to an earlier root of this trie, and keeps it in the
    /// trie's column where it has one. Nodes are never deleted from a
    /// column, so the trie under an earlier root is still there. The trie
    /// has the root also where keeping it fails.
    pub fn restore(&mut self, root: Hash256) -> (res: Result<()>)
        ensures
            final(self).store() == old(self).store(),
            final(self).root() == root@,
            final(self).kept() is Some == old(self).kept() is Some,
            final(self).column() == old(self).column(),
            res is Ok ==> final(self).keeps_root(),
    {
        self.root = root;
        self.keep_root()
    }

    /// Starts the trie empty again. This is for scratch tries: a root that
    /// a column keeps stays as it is.
    pub fn reset(&mut self)
        ensures
            final(self).entries() == no_entries(),
            final(self).root() == keccak256(seq![0u8]),
            final(self).wf(),
            final(self).kept() == old(self).kept(),
            final(self).column() == old(self).column(),
    {
        self.root = trie_empty(&mut self.db);
    }

    /// Records `bytes` under their own hash.
    pub fn insert_record(&mut self, bytes: &[u8]) -> (res: Result<()>)
        requires
            bytes@.len() <= u32::MAX,
        ensures
            res is Ok ==> final(self).entries() == with_entry(
                old(self).entries(),
                keccak256(bytes@),
                bytes@,
            ),
            res is Ok && old(self).wf() ==> final(self).wf(),
            res is Ok ==> final(self).keeps_root(),
            final(self).kept() is Some == old(self).kept() is Some,
            final(self).column() == old(self).column(),
            res is Err ==> final(self).root() == old(self).root(),
    {
        let key = self::keccak::hash(bytes);
        self.insert(key.as_slice(), bytes)
    }

    /// The root: what callers take into block headers.
    pub fn get_root(&self) -> (root: Hash256)
        ensures
            root@ == self.root(),
    {
        self.root
    }
}

/// Keeps `root` as the root of a column, under [`KEY_ROOT`], in a batch
/// of its own. A column whose named entries the handle does not hold is
/// refused.
pub fn save_root(db: &mut Backend, column: u32, root: &Hash256) -> (res: Result<()>)
    ensures
        forall|c: u32| #[trigger]
            final(db).holds_named(c) == old(db).holds_named(c) && final(db).holds_nodes(c) == old(
                db,
            ).holds_nodes(c),
        !old(db).holds_named(column) ==> *final(db) == *old(db) && self::db::refused(res),
        res is Ok ==> final(db).column(column) == old(db).column(column).insert(KEY_ROOT@, root@),
        res is Ok ==> forall|c: u32| c != column ==> #[trigger] final(db).column(c) == old(
            db,
        ).column(c),
        res is Ok ==> stored_root(lookup(final(db).column(column), KEY_ROOT@)) == root@,
{
    db.write_one(column, KEY_ROOT.as_slice(), Some(root.as_slice()))
}

/// What [`get_root`] makes of what a column holds under [`KEY_ROOT`].
pub open spec fn stored_root(stored: Option<Seq<u8>>) -> Seq<u8> {
    match stored {
        Some(bytes) => if bytes.len() == 32 {
            bytes
        } else {
            zero_root()
        },
        None => zero_root(),
    }
}

/// The root of the trie that [`AppDB::new`] makes of a kept root: the
/// root of the empty trie where the column kept none, else the kept root.
pub open spec fn opened_root(kept: Seq<u8>) -> Seq<u8> {
    if kept == zero_root() {
        keccak256(seq![0u8])
    } else {
        kept
    }
}

/// What a trie is that was opened under the root that its column kept:
/// its root is [`opened_root`] of the kept root, and where the column kept
/// none it holds nothing and its root is the root of that.
pub open spec fn opened(trie: AppDB, kept: Seq<u8>) -> bool {
    &&& trie.root() == opened_root(kept)
    &&& kept == zero_root() ==> trie.entries() == no_entries() && trie.wf()
}

/// The lasting trie of a column: `db` parts with the named entries of the
/// column, and the trie keeps its root through a handle of its own that
/// holds them. It fails, and `db` stays as it is, where `db` does not hold
/// them; it fails where the kept root cannot be read.
pub fn open_column(db: &mut Backend, column: u32, store: NodeStore) -> (res: Result<AppDB>)
    ensures
        final(db).columns() == old(db).columns(),
        res matches Ok(trie) ==> trie.as_opened() && trie.column() == Some(column),
        !old(db).holds_named(column) ==> self::db::refused(res) && *final(db) == *old(db),
        forall|c: u32| #[trigger] final(db).holds_nodes(c) == old(db).holds_nodes(c),
        forall|c: u32| #[trigger] final(db).column(c) == old(db).column(c),
        forall|c: u32|
            c != column ==> #[trigger] final(db).holds_named(c) == old(db).holds_named(c),
{
    match db.take_named(column) {
        Some(handle) => AppDB::open(store, handle, column),
        None => Err(self::db::not_held()),
    }
}

/// The root that [`get_root`] makes of what was read under [`KEY_ROOT`].
pub fn root_of(stored: Option<Vec<u8>>) -> (root: Hash256)
    ensures
        root@ == stored_root(bytes_view(stored)),
{
    let mut root: Hash256 = [0u8; 32];
    assert(root@ =~= zero_root());
    match stored {
        Some(bytes) => {
            if bytes.len() == 32 {
                let mut i: usize = 0;
                while i < 32
                    invariant
                        i <= 32,
                        bytes@.len() == 32,
                        forall|j: int| 0 <= j < i ==> root@[j] == bytes@[j],
                    decreases 32 - i,
                {
                    root[i] = bytes[i];
                    i += 1;
                }
                assert(root@ =~= bytes@);
            }
            root
        },
        None => root,
    }
}

/// Reads the root that a column keeps under [`KEY_ROOT`]: [`root_of`] what
/// the read returns. A column without a root gives 32 zero bytes, and so
/// does one that keeps anything but 32 bytes. It fails where the read
/// fails, and where the handle does not hold the column's named entries.
pub fn get_root(db: &Backend, column: u32) -> (res: Result<Hash256>)
    ensures
        !db.holds_named(column) ==> self::db::refused(res),
        res matches Ok(root) ==> root@ == stored_root(lookup(db.column(column), KEY_ROOT@)),
{
    match db.read(column, KEY_ROOT.as_slice()) {
        Ok(stored) => Ok(root_of(stored)),
        Err(e) => Err(e),
    }
}

} // verus!
