//! The trie of `trie_db` behind contracts.
//!
//! The trie is the radix-16 Merkle-Patricia trie of `trie_db`, run with the
//! node codec of this crate over a store of nodes. What it computes is
//! named here: [`trie_root`] is the root of the trie that holds given
//! entries, and [`trie_entries`] is what lookups find in a node store
//! under a given root. The contracts of the calls speak of those two
//! names. What they say of a store holds where nothing else writes to
//! what the store keeps its nodes in.

use super::db::{bytes_view, lookup};
use super::keccak::{keccak256, Hash256};
use super::trie_layout::{
    ChildRef, CodecError, ExtensionLayout, HandleLayout, Node, NodeLayout, PathLayout,
    ReferenceNodeCodec,
};
use hash_db::HashDB;
use keccak_hasher::KeccakHasher;
use std::borrow::Borrow;
use trie_db::node::{NodePlan, Value, ValuePlan};
use trie_db::{ChildReference, NodeCodec, Trie, TrieDB, TrieDBMut, TrieError, TrieLayout, TrieMut};
use vstd::prelude::*;

verus! {

/// The error of a trie, carried through as an opaque value.
#[verifier::external_type_specification]
#[verifier::external_body]
#[verifier::reject_recursive_types(T)]
#[verifier::reject_recursive_types(E)]
pub struct ExTrieError<T, E>(trie_db::TrieError<T, E>);

/// The layout of a decoded node as the trie takes it.
#[verifier::external_type_specification]
#[verifier::external_body]
pub struct ExNodePlan(trie_db::node::NodePlan);

/// Where a path lies, as the trie takes it.
#[verifier::external_type_specification]
#[verifier::external_body]
pub struct ExNibbleSlicePlan(trie_db::node::NibbleSlicePlan);

/// Where a child lies, as the trie takes it.
#[verifier::external_type_specification]
#[verifier::external_body]
pub struct ExNodeHandlePlan(trie_db::node::NodeHandlePlan);

/// A value as the trie hands it to the codec.
#[verifier::external_type_specification]
#[verifier::external_body]
pub struct ExValue<'a>(trie_db::node::Value<'a>);

/// A child reference as the trie hands it to the codec.
#[verifier::external_type_specification]
#[verifier::external_body]
#[verifier::reject_recursive_types(HO)]
pub struct ExChildReference<HO>(trie_db::ChildReference<HO>);

/// What a trie operation fails with.
pub type TrieFailure = Box<TrieError<Hash256, parity_scale_codec::Error>>;

/// The root of the trie that holds exactly `entries`.
pub uninterp spec fn trie_root(entries: Map<Seq<u8>, Seq<u8>>) -> Seq<u8>;

/// What lookups find in the node store `store` under `root`.
pub uninterp spec fn trie_entries(store: NodeStore, root: Seq<u8>) -> Map<Seq<u8>, Seq<u8>>;

/// Whether `root` is, in `store`, the root of exactly what lookups find
/// under it. The root of the empty trie is so in every store, and a root
/// that an insertion or a removal made of such a root is so again.
pub open spec fn canonical(store: NodeStore, root: Seq<u8>) -> bool {
    root == trie_root(trie_entries(store, root))
}

/// The entries of the empty trie: none.
pub open spec fn no_entries() -> Map<Seq<u8>, Seq<u8>> {
    Map::empty()
}

/// What a trie holds after `value` was inserted under `key`: an empty
/// value takes the key out.
pub open spec fn with_entry(entries: Map<Seq<u8>, Seq<u8>>, key: Seq<u8>, value: Seq<u8>) -> Map<
    Seq<u8>,
    Seq<u8>,
> {
    if value.len() == 0 {
        entries.remove(key)
    } else {
        entries.insert(key, value)
    }
}

/// The nodes of tries: any `hash_db::HashDB` over Keccak-256, together
/// with the four calls into `trie_db` for the layout that the store was
/// made for. The layout is a type; the store keeps the calls as functions
/// so that what uses the store need not name it.
///
/// A store is the only way to its nodes: a lasting trie keeps them in a
/// column whose nodes its [`super::db::DB`] holds, and a scratch trie in a
/// store of its own.
#[verifier::external_body]
pub struct NodeStore {
    nodes: Box<dyn HashDB<KeccakHasher, Vec<u8>>>,
    empty: fn(&mut NodeStore) -> Hash256,
    get: fn(&NodeStore, &Hash256, &[u8]) -> Result<Option<Vec<u8>>, TrieFailure>,
    insert: fn(&mut NodeStore, &mut Hash256, &[u8], &[u8]) -> Result<(), TrieFailure>,
    remove: fn(&mut NodeStore, &mut Hash256, &[u8]) -> Result<(), TrieFailure>,
}

/// A node store for tries of some layout, with the parameters of the
/// layout, before it is known whether they are those of
/// [`ExtensionLayout`].
pub struct Unchecked {
    store: NodeStore,
    use_extension: bool,
    allow_empty: bool,
    max_inline_value: Option<u32>,
}

impl Unchecked {
    /// The node store.
    pub closed spec fn store(&self) -> NodeStore {
        self.store
    }

    /// Whether the layout keeps partial paths in extension nodes.
    pub closed spec fn use_extension(&self) -> bool {
        self.use_extension
    }

    /// Whether the layout keeps empty values.
    pub closed spec fn allow_empty(&self) -> bool {
        self.allow_empty
    }

    /// The length from which on the layout keeps a value outside its node.
    pub closed spec fn max_inline_value(&self) -> Option<u32> {
        self.max_inline_value
    }

    /// Takes a node store of `hash_db` and the calls into `trie_db` for
    /// the layout `L`, whose codec is the codec of this crate, together
    /// with the three parameters of `L`. Nothing is claimed of what the
    /// store holds, nor of the parameters.
    #[verifier::external_body]
    pub fn new<
        L: TrieLayout<Hash = KeccakHasher, Codec = ReferenceNodeCodec>,
        D: HashDB<KeccakHasher, Vec<u8>> + 'static,
    >(db: D) -> Unchecked {
        let store = NodeStore {
            nodes: Box::new(db),
            empty: empty_with::<L>,
            get: get_with::<L>,
            insert: insert_with::<L>,
            remove: remove_with::<L>,
        };
        Unchecked {
            store,
            use_extension: L::USE_EXTENSION,
            allow_empty: L::ALLOW_EMPTY,
            max_inline_value: L::MAX_INLINE_VALUE,
        }
    }
}

impl NodeStore {
    /// The node store of tries whose layout has the parameters of
    /// [`ExtensionLayout`]. A layout with other parameters is refused:
    /// what is claimed of the tries holds of that layout only. What is
    /// claimed of the tries in the store holds where the store hands out
    /// under a hash what was put in under it, and nothing else writes to
    /// what it keeps its nodes in.
    pub fn new(raw: Unchecked) -> (res: Option<NodeStore>)
        ensures
            res is Some == (raw.use_extension() && !raw.allow_empty()
                && raw.max_inline_value() is None),
            res matches Some(store) ==> store == raw.store(),
    {
        let known = ExtensionLayout::has_parameters(
            raw.use_extension,
            raw.allow_empty,
            raw.max_inline_value,
        );
        if known {
            Some(raw.store)
        } else {
            None
        }
    }
}

/// The call behind [`trie_empty`]: `TrieDBMut::new`, which makes the empty trie.
#[verifier::external_body]
fn empty_with<L: TrieLayout<Hash = KeccakHasher, Codec = ReferenceNodeCodec>>(
    store: &mut NodeStore,
) -> Hash256 {
    let mut root = [0u8; 32];
    drop(TrieDBMut::<L>::new(store.nodes.as_mut(), &mut root));
    root
}

/// The calls behind [`trie_get`]: `TrieDB::new` and `Trie::get`.
#[verifier::external_body]
fn get_with<L: TrieLayout<Hash = KeccakHasher, Codec = ReferenceNodeCodec>>(
    store: &NodeStore,
    root: &Hash256,
    key: &[u8],
) -> Result<Option<Vec<u8>>, TrieFailure> {
    let db: &dyn HashDB<KeccakHasher, Vec<u8>> = store.nodes.as_ref();
    TrieDB::<L>::new(&db, root)?.get(key)
}

/// The calls behind [`trie_insert`]: `TrieDBMut::from_existing`,
/// `TrieMut::insert` and `TrieDBMut::commit`.
#[verifier::external_body]
fn insert_with<L: TrieLayout<Hash = KeccakHasher, Codec = ReferenceNodeCodec>>(
    store: &mut NodeStore,
    root: &mut Hash256,
    key: &[u8],
    value: &[u8],
) -> Result<(), TrieFailure> {
    let mut trie = TrieDBMut::<L>::from_existing(store.nodes.as_mut(), root)?;
    trie.insert(key, value)?;
    trie.commit();
    Ok(())
}

/// The calls behind [`trie_remove`]: `TrieDBMut::from_existing`,
/// `TrieMut::remove` and `TrieDBMut::commit`.
#[verifier::external_body]
fn remove_with<L: TrieLayout<Hash = KeccakHasher, Codec = ReferenceNodeCodec>>(
    store: &mut NodeStore,
    root: &mut Hash256,
    key: &[u8],
) -> Result<(), TrieFailure> {
    let mut trie = TrieDBMut::<L>::from_existing(store.nodes.as_mut(), root)?;
    trie.remove(key)?;
    trie.commit();
    Ok(())
}

/// Makes the empty trie, through `TrieDBMut::new`. The contract claims
/// that its root is the root of no entries, that lookups under it find
/// nothing, and that it is the hash of the empty node, which the trie
/// takes from `ReferenceNodeCodec::hashed_null_node`.
#[verifier::external_body]
pub(crate) fn trie_empty(store: &mut NodeStore) -> (root: Hash256)
    ensures
        trie_entries(*final(store), root@) == no_entries(),
        root@ == trie_root(no_entries()),
        root@ == keccak256(seq![0u8]),
{
    let call = store.empty;
    call(store)
}

/// Looks a key up, through `TrieDB::new` and `Trie::get`. The contract
/// claims that a successful lookup returns what the trie under `root`
/// holds under `key`.
#[verifier::external_body]
pub(crate) fn trie_get(store: &NodeStore, root: &Hash256, key: &[u8]) -> (res: Result<
    Option<Vec<u8>>,
    TrieFailure,
>)
    ensures
        res matches Ok(value) ==> bytes_view(value) == lookup(trie_entries(*store, root@), key@),
{
    let call = store.get;
    call(store, root, key)
}

/// Inserts an entry, through `TrieDBMut::from_existing`, `TrieMut::insert`
/// and `TrieDBMut::commit`. The contract claims that after a success
/// lookups under the new root find what they found under the old one,
/// with the entry put in; and that the new root is the root of exactly
/// those entries where the old root was the root of exactly what lookups
/// found under it. Keys of more than 63 bytes and values whose length does
/// not fit 32 bits are left out: their nodes have no encoding.
#[verifier::external_body]
pub(crate) fn trie_insert(store: &mut NodeStore, root: &mut Hash256, key: &[u8], value: &[u8]) -> (res:
    Result<(), TrieFailure>)
    requires
        key@.len() < 64,
        value@.len() <= u32::MAX,
    ensures
        res is Ok ==> trie_entries(*final(store), final(root)@) == with_entry(
            trie_entries(*old(store), old(root)@),
            key@,
            value@,
        ),
        res is Ok && canonical(*old(store), old(root)@) ==> canonical(
            *final(store),
            final(root)@,
        ),
{
    let call = store.insert;
    call(store, root, key, value)
}

/// Takes a key out, through `TrieDBMut::from_existing`, `TrieMut::remove`
/// and `TrieDBMut::commit`. The contract claims that after a success
/// lookups under the new root find what they found under the old one,
/// without the key; and that the new root is the root of exactly those
/// entries where the old root was the root of exactly what lookups found
/// under it.
#[verifier::external_body]
pub(crate) fn trie_remove(store: &mut NodeStore, root: &mut Hash256, key: &[u8]) -> (res: Result<
    (),
    TrieFailure,
>)
    requires
        key@.len() < 64,
    ensures
        res is Ok ==> trie_entries(*final(store), final(root)@) == trie_entries(
            *old(store),
            old(root)@,
        ).remove(key@),
        res is Ok && canonical(*old(store), old(root)@) ==> canonical(
            *final(store),
            final(root)@,
        ),
{
    let call = store.remove;
    call(store, root, key)
}

/// Formats a trie error with `Debug`, through `format!`. Nothing is claimed of the text.
#[verifier::external_body]
pub(crate) fn trie_error_text(cause: &TrieFailure) -> String {
    format!("{:?}", cause)
}

/// Turns the place of a path into the type of `trie_db`.
#[verifier::external_body]
fn to_path_plan(path: PathLayout) -> trie_db::node::NibbleSlicePlan {
    trie_db::node::NibbleSlicePlan::new(path.bytes.start..path.bytes.end, path.offset)
}

/// Turns the place of a child into the type of `trie_db`, variant for variant.
#[verifier::external_body]
fn to_handle_plan(handle: HandleLayout) -> trie_db::node::NodeHandlePlan {
    match handle {
        HandleLayout::Hash(r) => trie_db::node::NodeHandlePlan::Hash(r.start..r.end),
        HandleLayout::Inline(r) => trie_db::node::NodeHandlePlan::Inline(r.start..r.end),
    }
}

/// Turns the layout of a node into the type of `trie_db`, variant for
/// variant. A branch has its sixteen children.
#[verifier::external_body]
fn to_node_plan(layout: NodeLayout) -> NodePlan
    requires
        layout matches NodeLayout::Branch { children, .. } ==> children@.len() == 16,
{
    match layout {
        NodeLayout::Empty => NodePlan::Empty,
        NodeLayout::Leaf { partial, value } => NodePlan::Leaf {
            partial: to_path_plan(partial),
            value: ValuePlan::Inline(value.start..value.end),
        },
        NodeLayout::Extension { partial, child } => NodePlan::Extension {
            partial: to_path_plan(partial),
            child: to_handle_plan(child),
        },
        NodeLayout::Branch { value, children } => NodePlan::Branch {
            value: value.map(|r| ValuePlan::Inline(r.start..r.end)),
            children: std::array::from_fn(|i| children[i].map(to_handle_plan)),
        },
    }
}

/// Turns a child reference of `trie_db` into the type of this crate, variant for variant.
#[verifier::external_body]
fn to_child_ref(child: &ChildReference<Hash256>) -> ChildRef {
    match child {
        ChildReference::Hash(h) => ChildRef::Hash(*h),
        ChildReference::Inline(data, len) => ChildRef::Inline(*data, *len),
    }
}

/// The bytes of a value that stands in its node. The layouts of this
/// crate keep every value in its node.
#[verifier::external_body]
fn inline_value<'a>(value: Value<'a>) -> &'a [u8] {
    match value {
        Value::Inline(bytes) => bytes,
        Value::Node(..) => None.expect("unsupported"),
    }
}

/// Makes the error of `parity_scale_codec` with the description given,
/// through its `From<&'static str>`.
#[verifier::external_body]
fn scale_error(description: &'static str) -> parity_scale_codec::Error {
    description.into()
}

/// The codec as `trie_db` calls it. Each method hands its arguments to the
/// function of the same name of [`ReferenceNodeCodec`] itself, which states
/// what it returns. `trie_db` hands over paths and values that those
/// functions take where the keys of the trie have at most 63 bytes.
impl NodeCodec for ReferenceNodeCodec {
    type Error = parity_scale_codec::Error;

    type HashOut = Hash256;

    fn hashed_null_node() -> (out: Hash256)
        ensures
            out@ == keccak256(Node::Empty.bytes()),
    {
        ReferenceNodeCodec::hashed_null_node()
    }

    /// Decodes with [`ReferenceNodeCodec::decode_plan`], and turns the
    /// layout, or the error, into the types of `trie_db`.
    fn decode_plan(data: &[u8]) -> Result<NodePlan, Self::Error> {
        match ReferenceNodeCodec::decode_plan(data) {
            Ok(layout) => Ok(to_node_plan(layout)),
            Err(CodecError::OutOfData) => Err(scale_error("out of data")),
            Err(CodecError::BadLength) => Err(scale_error("bad length prefix")),
        }
    }

    fn is_empty_node(data: &[u8]) -> (b: bool)
        ensures
            b == (data@ == Node::Empty.bytes()),
    {
        ReferenceNodeCodec::is_empty_node(data)
    }

    /// The bytes of [`ReferenceNodeCodec::empty_node`].
    #[verifier::external_body]
    fn empty_node() -> &'static [u8] {
        &[super::trie_layout::EMPTY_TRIE]
    }

    /// Encodes with [`ReferenceNodeCodec::leaf_node`].
    #[verifier::external_body]
    fn leaf_node(partial: trie_db::Partial, value: Value) -> Vec<u8> {
        ReferenceNodeCodec::leaf_node(partial, inline_value(value))
    }

    /// Encodes with [`ReferenceNodeCodec::extension_node`], on the path
    /// gathered into a list.
    #[verifier::external_body]
    fn extension_node(
        partial: impl Iterator<Item = u8>,
        number_nibble: usize,
        child: ChildReference<Hash256>,
    ) -> Vec<u8> {
        let partial: Vec<u8> = partial.collect();
        ReferenceNodeCodec::extension_node(&partial, number_nibble, to_child_ref(&child))
    }

    /// Encodes with [`ReferenceNodeCodec::branch_node`], on the children
    /// gathered into a list.
    #[verifier::external_body]
    fn branch_node(
        children: impl Iterator<Item = impl Borrow<Option<ChildReference<Hash256>>>>,
        maybe_value: Option<Value>,
    ) -> Vec<u8> {
        let children: Vec<Option<ChildRef>> = children.map(
            |c| c.borrow().as_ref().map(to_child_ref),
        ).collect();
        ReferenceNodeCodec::branch_node(&children, maybe_value.map(inline_value))
    }

    /// A layout with extension nodes has no branches with paths: `trie_db`
    /// does not call this.
    #[verifier::external_body]
    fn branch_node_nibbled(
        _partial: impl Iterator<Item = u8>,
        _number_nibble: usize,
        _children: impl Iterator<Item = impl Borrow<Option<ChildReference<Hash256>>>>,
        _maybe_value: Option<Value>,
    ) -> Vec<u8> {
        None.expect("codec with extension branch")
    }
}

} // verus!
