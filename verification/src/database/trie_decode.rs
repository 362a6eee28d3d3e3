//! Decoder of the node codec.
//!
//! [`ReferenceNodeCodec::decode_plan`] reads the header, then the fields
//! that the header announces, and returns where they lie. It succeeds on
//! exactly the inputs that begin with the encoding of a well-formed node.

use super::compact::{lemma_length_prefixed_unique, lemma_prefix_split, length_prefixed};
use super::keccak::HASH_LENGTH;
use super::trie_layout::{
    bitmap_bit, bitmap_of, branch_prefix, child_bytes, children_bytes, decodable, field_end, field_error, field_placed,
    handles_view, lemma_bitmap_bit, lemma_branch_shape, lemma_children_bytes_step,
    lemma_children_bytes_take, lemma_node_header, lemma_path_node_shape, packed_len, presence,
    value_bytes, value_view, Bitmap, ByteSliceInput, CodecError, HandleLayout, Node, NodeHeader,
    NodeLayout, PathLayout, ReferenceNodeCodec, BITMAP_LENGTH, EXTENSION_NODE_OFFSET,
    LEAF_NODE_OFFSET, NIBBLE_LENGTH,
};
use vstd::prelude::*;
use vstd::slice::slice_subrange;

verus! {

/// Whether `children` are sixteen children, present where `bitmap` says,
/// each short enough for a length prefix.
pub open spec fn children_fit(children: Seq<Option<Seq<u8>>>, bitmap: Bitmap) -> bool {
    &&& children.len() == NIBBLE_LENGTH
    &&& forall|i: int|
        0 <= i < children.len() ==> (#[trigger] children[i] is Some) == bitmap.has_child(i)
    &&& forall|i: int|
        0 <= i < children.len() ==> (#[trigger] children[i] matches Some(c) ==> c.len()
            <= u32::MAX)
}

/// Why the children of a branch cannot be read, from child `i` on, where
/// `at` is the place of the next child that is there: the error of the
/// first child that cannot be read, if there is one.
pub open spec fn children_error(data: Seq<u8>, at: int, bits: u16, i: nat) -> Option<CodecError>
    decreases 16 - i,
{
    if i >= 16 {
        None
    } else if bitmap_bit(bits, i as int) {
        match field_error(data, at) {
            Some(e) => Some(e),
            None => children_error(data, field_end(data, at), bits, i + 1),
        }
    } else {
        children_error(data, at, bits, i + 1)
    }
}

/// Why `data` cannot be decoded, if it cannot: `OutOfData` where the input
/// ends inside the header, the bitmap, the path or a field, `BadLength`
/// where no length prefix stands where a field is to begin. The fields
/// are read in their order, and the first that cannot be read tells.
pub open spec fn decode_error(data: Seq<u8>) -> Option<CodecError> {
    if data.len() == 0 {
        Some(CodecError::OutOfData)
    } else {
        match NodeHeader::of_byte(data[0]) {
            NodeHeader::Null => None,
            NodeHeader::Leaf(count) => path_node_error(data, count as int),
            NodeHeader::Extension(count) => path_node_error(data, count as int),
            NodeHeader::Branch(has_value) => {
                if data.len() < BITMAP_LENGTH + 1 {
                    Some(CodecError::OutOfData)
                } else {
                    let bits = (data[1] + 256 * data[2]) as u16;
                    if has_value {
                        match field_error(data, 3) {
                            Some(e) => Some(e),
                            None => children_error(data, field_end(data, 3), bits, 0),
                        }
                    } else {
                        children_error(data, 3, bits, 0)
                    }
                }
            },
        }
    }
}

/// Why a leaf or an extension with a path of `count` nibbles cannot be
/// decoded, if it cannot.
pub open spec fn path_node_error(data: Seq<u8>, count: int) -> Option<CodecError> {
    if 1 + packed_len(count) > data.len() {
        Some(CodecError::OutOfData)
    } else {
        field_error(data, 1 + packed_len(count))
    }
}

/// Being a prefix is transitive.
pub proof fn lemma_prefix_trans(a: Seq<u8>, b: Seq<u8>, c: Seq<u8>)
    requires
        a.is_prefix_of(b),
        b.is_prefix_of(c),
    ensures
        a.is_prefix_of(c),
{
    assert forall|i: int| 0 <= i < a.len() implies a[i] == c[i] by {
        assert(a[i] == b.subrange(0, a.len() as int)[i]);
        assert(b[i] == c.subrange(0, b.len() as int)[i]);
    }
    assert(a =~= c.subrange(0, a.len() as int));
}

/// Two numbers with the same sixteen bits are the same number.
pub proof fn lemma_bits_equal(x: u16, y: u16)
    requires
        forall|i: int| 0 <= i < 16 ==> bitmap_bit(x, i) == bitmap_bit(y, i),
    ensures
        x == y,
{
    assert(bitmap_bit(x, 0) == bitmap_bit(y, 0));
    assert(bitmap_bit(x, 1) == bitmap_bit(y, 1));
    assert(bitmap_bit(x, 2) == bitmap_bit(y, 2));
    assert(bitmap_bit(x, 3) == bitmap_bit(y, 3));
    assert(bitmap_bit(x, 4) == bitmap_bit(y, 4));
    assert(bitmap_bit(x, 5) == bitmap_bit(y, 5));
    assert(bitmap_bit(x, 6) == bitmap_bit(y, 6));
    assert(bitmap_bit(x, 7) == bitmap_bit(y, 7));
    assert(bitmap_bit(x, 8) == bitmap_bit(y, 8));
    assert(bitmap_bit(x, 9) == bitmap_bit(y, 9));
    assert(bitmap_bit(x, 10) == bitmap_bit(y, 10));
    assert(bitmap_bit(x, 11) == bitmap_bit(y, 11));
    assert(bitmap_bit(x, 12) == bitmap_bit(y, 12));
    assert(bitmap_bit(x, 13) == bitmap_bit(y, 13));
    assert(bitmap_bit(x, 14) == bitmap_bit(y, 14));
    assert(bitmap_bit(x, 15) == bitmap_bit(y, 15));
    assert(x == y) by (bit_vector)
        requires
            (x & (1u16 << 0u16) != 0) == (y & (1u16 << 0u16) != 0),
            (x & (1u16 << 1u16) != 0) == (y & (1u16 << 1u16) != 0),
            (x & (1u16 << 2u16) != 0) == (y & (1u16 << 2u16) != 0),
            (x & (1u16 << 3u16) != 0) == (y & (1u16 << 3u16) != 0),
            (x & (1u16 << 4u16) != 0) == (y & (1u16 << 4u16) != 0),
            (x & (1u16 << 5u16) != 0) == (y & (1u16 << 5u16) != 0),
            (x & (1u16 << 6u16) != 0) == (y & (1u16 << 6u16) != 0),
            (x & (1u16 << 7u16) != 0) == (y & (1u16 << 7u16) != 0),
            (x & (1u16 << 8u16) != 0) == (y & (1u16 << 8u16) != 0),
            (x & (1u16 << 9u16) != 0) == (y & (1u16 << 9u16) != 0),
            (x & (1u16 << 10u16) != 0) == (y & (1u16 << 10u16) != 0),
            (x & (1u16 << 11u16) != 0) == (y & (1u16 << 11u16) != 0),
            (x & (1u16 << 12u16) != 0) == (y & (1u16 << 12u16) != 0),
            (x & (1u16 << 13u16) != 0) == (y & (1u16 << 13u16) != 0),
            (x & (1u16 << 14u16) != 0) == (y & (1u16 << 14u16) != 0),
            (x & (1u16 << 15u16) != 0) == (y & (1u16 << 15u16) != 0),
    ;
}

/// Sixteen children that are present where the bits of `bits` say have `bits` as their bitmap.
pub proof fn lemma_bitmap_of_bits(present: Seq<bool>, bits: u16)
    requires
        present.len() == 16,
        forall|i: int| 0 <= i < 16 ==> present[i] == bitmap_bit(bits, i),
    ensures
        bitmap_of(present) == bits,
{
    assert forall|i: int| 0 <= i < 16 implies bitmap_bit(bitmap_of(present), i) == bitmap_bit(
        bits,
        i,
    ) by {
        lemma_bitmap_bit(present, 16, i);
    }
    lemma_bits_equal(bitmap_of(present), bits);
}

/// Reads the children of a branch that `bitmap` announces, one
/// length-prefixed reference for each bit that is set.
fn decode_children(input: &mut ByteSliceInput, bitmap: Bitmap) -> (res: Result<
    Vec<Option<HandleLayout>>,
    CodecError,
>)
    requires
        old(input).position() <= old(input).bytes().len(),
    ensures
        final(input).bytes() == old(input).bytes(),
        res matches Ok(hs) ==> {
            let data = old(input).bytes();
            let start = old(input).position() as int;
            &&& children_fit(handles_view(hs@, data), bitmap)
            &&& hs@.len() == NIBBLE_LENGTH
            &&& start <= final(input).position() <= data.len()
            &&& children_bytes(handles_view(hs@, data)) == data.subrange(
                start,
                final(input).position() as int,
            )
            &&& forall|i: int|
                0 <= i < hs@.len() ==> (#[trigger] hs@[i] matches Some(h) ==> {
                    &&& h.wf()
                    &&& h.range().end <= data.len()
                    &&& field_placed(
                        h.range(),
                        start + children_bytes(handles_view(hs@, data).take(i)).len(),
                    )
                })
        },
        res is Err ==> forall|cs: Seq<Option<Seq<u8>>>|
            children_fit(cs, bitmap) ==> !(#[trigger] children_bytes(cs)).is_prefix_of(
                old(input).bytes().skip(old(input).position() as int),
            ),
        res matches Err(e) ==> children_error(
            old(input).bytes(),
            old(input).position() as int,
            bitmap.bits(),
            0,
        ) == Some(e),
        res is Ok ==> children_error(
            old(input).bytes(),
            old(input).position() as int,
            bitmap.bits(),
            0,
        ) is None,
{
    let ghost data = input.bytes();
    let ghost start = input.position() as int;
    let ghost rest = data.skip(start);
    let mut children: Vec<Option<HandleLayout>> = Vec::new();
    let mut i: usize = 0;
    assert(handles_view(children@, data) =~= Seq::empty());
    assert(data.subrange(start, start) =~= Seq::empty());
    while i < NIBBLE_LENGTH
        invariant
            i <= NIBBLE_LENGTH,
            children@.len() == i,
            input.bytes() == data,
            data == old(input).bytes(),
            start == old(input).position(),
            rest == data.skip(start),
            0 <= start <= input.position() <= data.len(),
            forall|j: int|
                0 <= j < i ==> (#[trigger] handles_view(children@, data)[j] is Some)
                    == bitmap.has_child(j),
            forall|j: int|
                0 <= j < i ==> (#[trigger] children@[j] matches Some(h) ==> {
                    &&& h.wf()
                    &&& h.range().end <= data.len()
                    &&& field_placed(
                        h.range(),
                        start + children_bytes(handles_view(children@, data).take(j)).len(),
                    )
                }),
            children_bytes(handles_view(children@, data)) == data.subrange(
                start,
                input.position() as int,
            ),
            forall|cs: Seq<Option<Seq<u8>>>|
                children_fit(cs, bitmap) && (#[trigger] children_bytes(cs)).is_prefix_of(rest)
                    ==> cs.take(i as int) == handles_view(children@, data),
            children_error(data, start, bitmap.bits(), 0) == children_error(
                data,
                input.position() as int,
                bitmap.bits(),
                i as nat,
            ),
        decreases NIBBLE_LENGTH - i,
    {
        let ghost before = children@;
        let ghost view_before = handles_view(before, data);
        let ghost off = input.position() as int;
        if bitmap.value_at(i) {
            let range = match input.take_length_prefixed() {
                Ok(range) => range,
                Err(e) => {
                    proof {
                        assert(rest.skip(off - start) =~= data.skip(off));
                        assert forall|cs: Seq<Option<Seq<u8>>>| children_fit(cs, bitmap) implies !(
                        #[trigger] children_bytes(cs)).is_prefix_of(rest) by {
                            if children_bytes(cs).is_prefix_of(rest) {
                                lemma_child_at(cs, i as int, rest);
                                assert(cs.take(i as int) == view_before);
                                assert(cs[i as int] is Some);
                                assert(rest.skip(off - start) =~= data.skip(off));
                            }
                        }
                    }
                    return Err(e);
                },
            };
            let handle = if range.end - range.start == HASH_LENGTH {
                HandleLayout::Hash(range)
            } else {
                HandleLayout::Inline(range)
            };
            children.push(Some(handle));
            proof {
                let field = range.of(data);
                let view = handles_view(children@, data);
                assert(view =~= view_before.push(Some(field)));
                assert(view.drop_last() =~= view_before);
                assert(children_bytes(view) =~= data.subrange(start, range.end as int));
                assert forall|cs: Seq<Option<Seq<u8>>>|
                    children_fit(cs, bitmap) && (#[trigger] children_bytes(cs)).is_prefix_of(
                        rest,
                    ) implies cs.take(i + 1) == view by {
                    lemma_child_at(cs, i as int, rest);
                    assert(cs.take(i as int) == view_before);
                    assert(rest.skip(off - start) =~= data.skip(off));
                    assert(cs[i as int] is Some);
                    let c = cs[i as int]->Some_0;
                    assert(length_prefixed(field).is_prefix_of(data.skip(off))) by {
                        assert(length_prefixed(field) =~= data.skip(off).subrange(
                            0,
                            range.end - off,
                        ));
                    }
                    lemma_length_prefixed_unique(c, field, data.skip(off));
                    assert(cs.take(i + 1) =~= cs.take(i as int).push(cs[i as int]));
                }
            }
        } else {
            children.push(None);
            proof {
                let view = handles_view(children@, data);
                assert(view =~= view_before.push(None));
                assert(view.drop_last() =~= view_before);
                assert(children_bytes(view) =~= children_bytes(view_before));
                assert forall|cs: Seq<Option<Seq<u8>>>|
                    children_fit(cs, bitmap) && (#[trigger] children_bytes(cs)).is_prefix_of(
                        rest,
                    ) implies cs.take(i + 1) == view by {
                    assert(cs.take(i as int) == view_before);
                    assert(!(cs[i as int] is Some));
                    assert(cs.take(i + 1) =~= cs.take(i as int).push(cs[i as int]));
                }
            }
        }
        proof {
            let view = handles_view(children@, data);
            assert forall|j: int| 0 <= j < i + 1 implies (#[trigger] view[j] is Some)
                == bitmap.has_child(j) by {
                if j < i {
                    assert(view[j] == view_before[j]);
                }
            }
            assert forall|j: int| 0 <= j < i + 1 implies (#[trigger] children@[j] matches Some(
                h,
            ) ==> {
                &&& h.wf()
                &&& h.range().end <= data.len()
                &&& field_placed(h.range(), start + children_bytes(view.take(j)).len())
            }) by {
                assert(view.take(j) =~= view_before.take(j));
                if j < i {
                    assert(children@[j] == before[j]);
                } else {
                    assert(view_before.take(j) =~= view_before);
                }
            }
        }
        i += 1;
    }
    proof {
        let view = handles_view(children@, data);
        assert forall|j: int| 0 <= j < view.len() implies (#[trigger] view[j] matches Some(c)
            ==> c.len() <= u32::MAX) by {
            assert(children@[j] matches Some(h) ==> h.wf());
        }
        assert(children_fit(view, bitmap));
    }
    Ok(children)
}

/// Where child `k` of a branch stands: behind the children before it.
pub proof fn lemma_child_at(children: Seq<Option<Seq<u8>>>, k: int, s: Seq<u8>)
    requires
        0 <= k < children.len(),
        children_bytes(children).is_prefix_of(s),
    ensures
        children_bytes(children.take(k)).len() <= s.len(),
        children_bytes(children.take(k)) == s.subrange(
            0,
            children_bytes(children.take(k)).len() as int,
        ),
        child_bytes(children[k]).is_prefix_of(
            s.skip(children_bytes(children.take(k)).len() as int),
        ),
{
    lemma_children_bytes_take(children, k + 1);
    lemma_children_bytes_step(children, k);
    lemma_prefix_trans(children_bytes(children.take(k + 1)), children_bytes(children), s);
    lemma_prefix_split(children_bytes(children.take(k)), child_bytes(children[k]), s);
}

/// What decoding `data` may return: the layout of the well-formed node that
/// `data` begins with, or an error where it begins with none.
pub open spec fn decodes_to(data: Seq<u8>, res: Result<NodeLayout, CodecError>) -> bool {
    &&& res matches Ok(plan) ==> plan.describes(data)
    &&& res is Err ==> !decodable(data)
}

impl ReferenceNodeCodec {
    /// Decodes the node that `data` begins with into the layout of its
    /// fields. Bytes behind the node are ignored.
    ///
    /// Succeeds exactly where `data` begins with the encoding of a
    /// well-formed node, and then returns the layout of that node.
    pub fn decode_plan(data: &[u8]) -> (res: Result<NodeLayout, CodecError>)
        ensures
            decodes_to(data@, res),
            res matches Err(e) ==> decode_error(data@) == Some(e),
            res is Ok ==> decode_error(data@) is None,
    {
        let mut input = ByteSliceInput::new(data);
        let header = match NodeHeader::decode(&mut input) {
            Ok(header) => header,
            Err(e) => {
                proof {
                    assert forall|n: Node| n.wf() implies !(#[trigger] n.bytes()).is_prefix_of(
                        data@,
                    ) by {
                        if n.bytes().is_prefix_of(data@) {
                            lemma_node_header(n, data@);
                        }
                    }
                }
                return Err(e);
            },
        };
        match header {
            NodeHeader::Null => {
                proof {
                    assert(Node::Empty.bytes() =~= data@.subrange(0, 1));
                }
                Ok(NodeLayout::Empty)
            },
            NodeHeader::Branch(has_value) => decode_branch(data, &mut input, has_value),
            NodeHeader::Extension(nibble_count) => decode_extension(
                data,
                &mut input,
                nibble_count,
            ),
            NodeHeader::Leaf(nibble_count) => decode_leaf(data, &mut input, nibble_count),
        }
    }
}

/// Decodes a branch behind its header: the bitmap, the value if the header
/// announces one, and the children.
fn decode_branch(data: &[u8], input: &mut ByteSliceInput, has_value: bool) -> (res: Result<
    NodeLayout,
    CodecError,
>)
    requires
        old(input).bytes() == data@,
        old(input).position() == 1,
        data@.len() >= 1,
        NodeHeader::of_byte(data@[0]) == NodeHeader::Branch(has_value),
    ensures
        res matches Ok(plan) ==> plan.describes(data@),
        res is Err ==> !decodable(data@),
        res matches Err(e) ==> decode_error(data@) == Some(e),
        res is Ok ==> decode_error(data@) is None,
{
    let bitmap_range = match input.take(BITMAP_LENGTH) {
        Ok(range) => range,
        Err(e) => {
            proof {
                lemma_not_branch(data@);
            }
            return Err(e);
        },
    };
    let bitmap = match Bitmap::decode(slice_subrange(data, bitmap_range.start, bitmap_range.end)) {
        Ok(bitmap) => bitmap,
        Err(e) => {
            return Err(e);
        },
    };
    assert(bitmap.bits() == data@[1] + 256 * data@[2]);
    let value = if has_value {
        match input.take_length_prefixed() {
            Ok(range) => Some(range),
            Err(e) => {
                proof {
                    assert forall|n: Node| n.wf() implies !(#[trigger] n.bytes()).is_prefix_of(
                        data@,
                    ) by {
                        if n.bytes().is_prefix_of(data@) {
                            lemma_node_header(n, data@);
                            lemma_branch_shape(n->Branch_value, n->Branch_children, data@);
                        }
                    }
                }
                return Err(e);
            },
        }
    } else {
        None
    };
    let ghost start = input.position() as int;
    let ghost decoded_value = value_view(value, data@);
    assert(value_bytes(decoded_value) =~= data@.subrange(3, start));
    let children = match decode_children(input, bitmap) {
        Ok(children) => children,
        Err(e) => {
            proof {
                assert forall|n: Node| n.wf() implies !(#[trigger] n.bytes()).is_prefix_of(
                    data@,
                ) by {
                    if n.bytes().is_prefix_of(data@) {
                        lemma_node_header(n, data@);
                        let v = n->Branch_value;
                        let cs = n->Branch_children;
                        lemma_branch_shape(v, cs, data@);
                        lemma_branch_value(v, decoded_value, data@, start);
                        assert forall|i: int| 0 <= i < 16 implies (#[trigger] cs[i] is Some)
                            == bitmap.has_child(i) by {
                            lemma_bitmap_bit(presence(cs), 16, i);
                        }
                        assert(children_fit(cs, bitmap));
                    }
                }
            }
            return Err(e);
        },
    };
    let plan = NodeLayout::Branch { value, children };
    proof {
        let end = input.position() as int;
        let view = handles_view(children@, data@);
        lemma_branch_bytes(has_value, bitmap.bits(), decoded_value, view, data@, start, end);
        assert(plan.node(data@) == Node::Branch { value: decoded_value, children: view });
    }
    Ok(plan)
}

/// Decodes an extension behind its header: the path, then the child.
fn decode_extension(data: &[u8], input: &mut ByteSliceInput, nibble_count: usize) -> (res: Result<
    NodeLayout,
    CodecError,
>)
    requires
        old(input).bytes() == data@,
        old(input).position() == 1,
        data@.len() >= 1,
        NodeHeader::of_byte(data@[0]) == NodeHeader::Extension(nibble_count),
    ensures
        res matches Ok(plan) ==> plan.describes(data@),
        res is Err ==> !decodable(data@),
        res matches Err(e) ==> decode_error(data@) == Some(e),
        res is Ok ==> decode_error(data@) is None,
{
    let partial = match input.take((nibble_count + 1) / 2) {
        Ok(range) => range,
        Err(e) => {
            proof {
                lemma_not_path_node(data@);
            }
            return Err(e);
        },
    };
    let partial_padding = trie_db::nibble_ops::number_padding(nibble_count);
    let range = match input.take_length_prefixed() {
        Ok(range) => range,
        Err(e) => {
            proof {
                lemma_not_path_node(data@);
            }
            return Err(e);
        },
    };
    let child = if range.end - range.start == HASH_LENGTH {
        HandleLayout::Hash(range)
    } else {
        HandleLayout::Inline(range)
    };
    let plan = NodeLayout::Extension {
        partial: PathLayout { bytes: partial, offset: partial_padding },
        child,
    };
    proof {
        lemma_path_node_bytes(
            data@[0],
            partial.of(data@),
            range.of(data@),
            data@,
            range.end as int,
        );
    }
    Ok(plan)
}

/// Decodes a leaf behind its header: the path, then the value.
fn decode_leaf(data: &[u8], input: &mut ByteSliceInput, nibble_count: usize) -> (res: Result<
    NodeLayout,
    CodecError,
>)
    requires
        old(input).bytes() == data@,
        old(input).position() == 1,
        data@.len() >= 1,
        NodeHeader::of_byte(data@[0]) == NodeHeader::Leaf(nibble_count),
    ensures
        res matches Ok(plan) ==> plan.describes(data@),
        res is Err ==> !decodable(data@),
        res matches Err(e) ==> decode_error(data@) == Some(e),
        res is Ok ==> decode_error(data@) is None,
{
    let partial = match input.take((nibble_count + 1) / 2) {
        Ok(range) => range,
        Err(e) => {
            proof {
                lemma_not_path_node(data@);
            }
            return Err(e);
        },
    };
    let partial_padding = trie_db::nibble_ops::number_padding(nibble_count);
    let value = match input.take_length_prefixed() {
        Ok(range) => range,
        Err(e) => {
            proof {
                lemma_not_path_node(data@);
            }
            return Err(e);
        },
    };
    let plan = NodeLayout::Leaf {
        partial: PathLayout { bytes: partial, offset: partial_padding },
        value,
    };
    proof {
        lemma_path_node_bytes(
            data@[0],
            partial.of(data@),
            value.of(data@),
            data@,
            value.end as int,
        );
    }
    Ok(plan)
}

/// A branch header, a bitmap, a value and children that lie one behind the
/// other at the start of `data` are the encoding that `data` begins with.
pub proof fn lemma_branch_bytes(
    has_value: bool,
    bits: u16,
    value: Option<Seq<u8>>,
    children: Seq<Option<Seq<u8>>>,
    data: Seq<u8>,
    start: int,
    end: int,
)
    requires
        BITMAP_LENGTH + 1 <= start <= end <= data.len(),
        NodeHeader::of_byte(data[0]) == NodeHeader::Branch(has_value),
        bits == data[1] + 256 * data[2],
        has_value == (value is Some),
        children.len() == 16,
        forall|i: int| 0 <= i < 16 ==> (#[trigger] children[i] is Some) == bitmap_bit(bits, i),
        value_bytes(value) == data.subrange(BITMAP_LENGTH + 1, start),
        children_bytes(children) == data.subrange(start, end),
    ensures
        (Node::Branch { value, children }).bytes().is_prefix_of(data),
{
    assert forall|i: int| 0 <= i < 16 implies presence(children)[i] == bitmap_bit(bits, i) by {
        assert((children[i] is Some) == bitmap_bit(bits, i));
    }
    lemma_bitmap_of_bits(presence(children), bits);
    let prefix = branch_prefix(has_value, presence(children));
    assert(prefix =~= data.subrange(0, 3));
    let e = (Node::Branch { value, children }).bytes();
    assert(e =~= data.subrange(0, end));
}

/// Number of nibbles that the header byte of a leaf or extension announces.
pub open spec fn header_nibbles(b: u8) -> int {
    match NodeHeader::of_byte(b) {
        NodeHeader::Leaf(n) => n as int,
        NodeHeader::Extension(n) => n as int,
        _ => 0,
    }
}

/// An input whose header announces a leaf or an extension, and which ends
/// inside the path or has no length-prefixed field behind it, does not
/// begin with a node.
pub proof fn lemma_not_path_node(data: Seq<u8>)
    requires
        data.len() >= 1,
        NodeHeader::of_byte(data[0]) is Leaf || NodeHeader::of_byte(data[0]) is Extension,
        ({
            let at = 1 + packed_len(header_nibbles(data[0]));
            at > data.len() || forall|f: Seq<u8>|
                f.len() <= u32::MAX ==> !(#[trigger] length_prefixed(f)).is_prefix_of(
                    data.skip(at),
                )
        }),
    ensures
        !decodable(data),
{
    assert forall|n: Node| n.wf() implies !(#[trigger] n.bytes()).is_prefix_of(data) by {
        if n.bytes().is_prefix_of(data) {
            lemma_node_header(n, data);
            match n {
                Node::Leaf { nibble_count, partial, value } => {
                    lemma_path_node_shape(
                        (LEAF_NODE_OFFSET + nibble_count) as u8,
                        partial,
                        value,
                        data,
                    );
                },
                Node::Extension { nibble_count, partial, child } => {
                    lemma_path_node_shape(
                        (EXTENSION_NODE_OFFSET + nibble_count) as u8,
                        partial,
                        child,
                        data,
                    );
                },
                _ => {},
            }
        }
    }
}

/// An input whose header announces a branch and which ends inside the
/// bitmap does not begin with a node.
pub proof fn lemma_not_branch(data: Seq<u8>)
    requires
        data.len() >= 1,
        NodeHeader::of_byte(data[0]) is Branch,
        data.len() < BITMAP_LENGTH + 1,
    ensures
        !decodable(data),
{
    assert forall|n: Node| n.wf() implies !(#[trigger] n.bytes()).is_prefix_of(data) by {
        if n.bytes().is_prefix_of(data) {
            lemma_node_header(n, data);
            lemma_branch_shape(n->Branch_value, n->Branch_children, data);
        }
    }
}

/// The value of a branch that `data` begins with is the value that lies
/// behind the bitmap.
pub proof fn lemma_branch_value(
    value: Option<Seq<u8>>,
    decoded: Option<Seq<u8>>,
    data: Seq<u8>,
    end: int,
)
    requires
        data.len() >= BITMAP_LENGTH + 1,
        (value is Some) == (decoded is Some),
        value matches Some(v) ==> v.len() <= u32::MAX,
        decoded matches Some(v) ==> v.len() <= u32::MAX,
        value_bytes(value).is_prefix_of(data.skip(BITMAP_LENGTH + 1)),
        BITMAP_LENGTH + 1 <= end <= data.len(),
        value_bytes(decoded) == data.subrange(BITMAP_LENGTH + 1, end),
    ensures
        value == decoded,
        end == BITMAP_LENGTH + 1 + value_bytes(value).len(),
{
    let rest = data.skip(3);
    assert(value_bytes(decoded) =~= rest.subrange(0, end - 3));
    match value {
        Some(v) => {
            lemma_length_prefixed_unique(v, decoded->Some_0, rest);
        },
        None => {},
    }
}

/// A header, a path and a length-prefixed field that lie one behind the
/// other at the start of `data` are the encoding that `data` begins with.
pub proof fn lemma_path_node_bytes(
    header: u8,
    partial: Seq<u8>,
    field: Seq<u8>,
    data: Seq<u8>,
    end: int,
)
    requires
        1 + partial.len() <= end <= data.len(),
        header == data[0],
        partial == data.subrange(1, 1 + partial.len() as int),
        length_prefixed(field) == data.subrange(1 + partial.len() as int, end),
    ensures
        (seq![header] + partial + length_prefixed(field)).is_prefix_of(data),
{
    let e = seq![header] + partial + length_prefixed(field);
    assert(e =~= data.subrange(0, end));
}

} // verus!
