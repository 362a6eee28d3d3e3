//! What holds of the node codec as a whole.

use super::compact::lemma_length_prefixed_unique;
use super::keccak::keccak256;
use super::trie_decode::{decodes_to, lemma_child_at};
use super::trie_layout::{
    children_bytes, lemma_bitmap_presence, lemma_branch_shape, lemma_node_header,
    lemma_path_node_shape, presence, value_bytes, CodecError, Node, NodeLayout,
    EXTENSION_NODE_OFFSET, LEAF_NODE_OFFSET,
};
use vstd::prelude::*;

verus! {

/// Two rows of children, present at the same places, whose bytes begin the
/// same byte string agree on their first `k` children.
proof fn lemma_children_unique(
    c: Seq<Option<Seq<u8>>>,
    d: Seq<Option<Seq<u8>>>,
    s: Seq<u8>,
    k: int,
)
    requires
        c.len() == d.len(),
        0 <= k <= c.len(),
        presence(c) == presence(d),
        forall|i: int| 0 <= i < c.len() ==> (#[trigger] c[i] matches Some(x) ==> x.len() <= u32::MAX),
        forall|i: int| 0 <= i < d.len() ==> (#[trigger] d[i] matches Some(x) ==> x.len() <= u32::MAX),
        children_bytes(c).is_prefix_of(s),
        children_bytes(d).is_prefix_of(s),
    ensures
        c.take(k) == d.take(k),
    decreases k,
{
    if k == 0 {
        assert(c.take(0) =~= d.take(0));
    } else {
        let j = k - 1;
        lemma_children_unique(c, d, s, j);
        lemma_child_at(c, j, s);
        lemma_child_at(d, j, s);
        assert(presence(c)[j] == (c[j] is Some));
        assert(presence(d)[j] == (d[j] is Some));
        assert((c[j] is Some) == (d[j] is Some));
        match c[j] {
            Some(x) => {
                let y = d[j]->Some_0;
                lemma_length_prefixed_unique(
                    x,
                    y,
                    s.skip(children_bytes(c.take(j)).len() as int),
                );
            },
            None => {},
        }
        assert(c.take(k) =~= c.take(j).push(c[j]));
        assert(d.take(k) =~= d.take(j).push(d[j]));
    }
}

/// No byte string begins with the encodings of two different well-formed nodes.
pub proof fn lemma_encoding_unique(m: Node, n: Node, data: Seq<u8>)
    requires
        m.wf(),
        n.wf(),
        m.bytes().is_prefix_of(data),
        n.bytes().is_prefix_of(data),
    ensures
        m == n,
{
    lemma_node_header(m, data);
    lemma_node_header(n, data);
    match m {
        Node::Empty => {},
        Node::Leaf { nibble_count, partial, value } => {
            lemma_path_node_shape((LEAF_NODE_OFFSET + nibble_count) as u8, partial, value, data);
            lemma_path_node_shape(
                (LEAF_NODE_OFFSET + n->Leaf_nibble_count) as u8,
                n->Leaf_partial,
                n->Leaf_value,
                data,
            );
            lemma_length_prefixed_unique(
                value,
                n->Leaf_value,
                data.skip(1 + partial.len() as int),
            );
        },
        Node::Extension { nibble_count, partial, child } => {
            lemma_path_node_shape(
                (EXTENSION_NODE_OFFSET + nibble_count) as u8,
                partial,
                child,
                data,
            );
            lemma_path_node_shape(
                (EXTENSION_NODE_OFFSET + n->Extension_nibble_count) as u8,
                n->Extension_partial,
                n->Extension_child,
                data,
            );
            lemma_length_prefixed_unique(
                child,
                n->Extension_child,
                data.skip(1 + partial.len() as int),
            );
        },
        Node::Branch { value, children } => {
            let v = n->Branch_value;
            let d = n->Branch_children;
            lemma_branch_shape(value, children, data);
            lemma_branch_shape(v, d, data);
            lemma_bitmap_presence(presence(children), presence(d));
            match value {
                Some(x) => {
                    lemma_length_prefixed_unique(x, v->Some_0, data.skip(3));
                },
                None => {},
            }
            assert(value == v);
            lemma_children_unique(
                children,
                d,
                data.skip(3 + value_bytes(value).len() as int),
                16,
            );
            assert(children.take(16) =~= children);
            assert(d.take(16) =~= d);
        },
    }
}

/// Decoding gives back what was encoded: on the encoding of a well-formed
/// node `n`, followed by any bytes, the decoder succeeds, and the layout it
/// returns describes `n`.
pub proof fn lemma_codec_round_trip(n: Node, rest: Seq<u8>, res: Result<NodeLayout, CodecError>)
    requires
        n.wf(),
        decodes_to(n.bytes() + rest, res),
    ensures
        res is Ok,
        res->Ok_0.node(n.bytes() + rest) == n,
{
    let data = n.bytes() + rest;
    assert(n.bytes() =~= data.subrange(0, n.bytes().len() as int));
    assert(n.bytes().is_prefix_of(data));
    lemma_encoding_unique(res->Ok_0.node(data), n, data);
}

/// The empty node is the single byte `0x00`, and the root of the empty trie is its hash.
pub proof fn lemma_empty_node()
    ensures
        Node::Empty.wf(),
        Node::Empty.bytes() == seq![0u8],
        keccak256(Node::Empty.bytes()) == keccak256(seq![0u8]),
{
}

} // verus!
