//! Node codec of the radix-16 trie with extension nodes.
//!
//! An encoded node starts with a one-byte header:
//!
//! * `0x00`: the empty node;
//! * `0x01 ..= 0x7f`: a leaf whose partial path has `header - 1` nibbles;
//! * `0x80 ..= 0xfd`: an extension whose partial path has `header - 128` nibbles;
//! * `0xfe`, `0xff`: a branch without and with a value of its own.
//!
//! [`Node`] is the mathematical value of a node and [`Node::bytes`] its
//! encoding. The encoders produce exactly those bytes, and
//! [`ReferenceNodeCodec::decode_plan`] accepts exactly the inputs that begin
//! with the encoding of a well-formed node.

use super::compact::{
    compact_decode, compact_encode, compact_len, compact_prefix, compact_u32_bytes,
    compact_width, lemma_compact_len, lemma_compact_prefix, lemma_compact_prefix_unique,
    lemma_prefix_join, lemma_prefix_split, length_prefixed,
};
use super::keccak::{keccak256, keccak_hash, Hash256, HASH_LENGTH};
use vstd::prelude::*;
use vstd::slice::slice_subrange;

verus! {

pub const EMPTY_TRIE: u8 = 0;

pub const LEAF_NODE_OFFSET: u8 = 1;

pub const EXTENSION_NODE_OFFSET: u8 = 128;

pub const BRANCH_NODE_NO_VALUE: u8 = 254;

pub const BRANCH_NODE_WITH_VALUE: u8 = 255;

/// A leaf's partial path has fewer nibbles than this.
pub const LEAF_NODE_OVER: u8 = 127;

/// An extension's partial path has fewer nibbles than this.
pub const EXTENSION_NODE_OVER: u8 = 126;

pub const LEAF_NODE_LAST: u8 = 127;

pub const EXTENSION_NODE_LAST: u8 = 253;

/// Bytes of the children bitmap of a branch.
pub const BITMAP_LENGTH: usize = 2;

/// Children of a branch.
pub const NIBBLE_LENGTH: usize = 16;

/// A partial path as the trie hands it to the leaf encoder: the number of
/// nibbles held by the first byte (0 or 1) with that byte, then the
/// remaining bytes, two nibbles each.
pub type Partial<'a> = ((u8, u8), &'a [u8]);

/// Why a node could not be decoded.
#[derive(Debug, Clone, Copy, PartialEq, Eq, Structural)]
pub enum CodecError {
    /// The input ends inside the node.
    OutOfData,
    /// A length prefix is not the compact encoding of a 32-bit number.
    BadLength,
}

/// A half-open range of positions in an encoded node.
#[derive(Debug, Clone, Copy, PartialEq, Eq, Structural)]
pub struct ByteRange {
    pub start: usize,
    pub end: usize,
}

impl ByteRange {
    pub open spec fn len(self) -> int {
        self.end - self.start
    }

    pub open spec fn wf(self) -> bool {
        self.start <= self.end
    }

    /// The bytes of `data` that the range covers.
    pub open spec fn of(self, data: Seq<u8>) -> Seq<u8> {
        data.subrange(self.start as int, self.end as int)
    }
}

/// Whether `r` is a length-prefixed field whose prefix starts at `at`.
pub open spec fn field_placed(r: ByteRange, at: int) -> bool {
    &&& r.wf()
    &&& r.len() <= u32::MAX
    &&& r.start == at + compact_len(r.len() as u32)
}

/// Why no length-prefixed field can be read at `at`, if none can: there
/// is no length prefix, or the input ends before the field does.
pub open spec fn field_error(data: Seq<u8>, at: int) -> Option<CodecError> {
    match compact_prefix(data.skip(at)) {
        None => Some(CodecError::BadLength),
        Some(n) => if at + compact_len(n) + n > data.len() {
            Some(CodecError::OutOfData)
        } else {
            None
        },
    }
}

/// Where the length-prefixed field at `at` ends.
pub open spec fn field_end(data: Seq<u8>, at: int) -> int {
    match compact_prefix(data.skip(at)) {
        None => at,
        Some(n) => at + compact_len(n) + n,
    }
}

/// Where a partial path lies: its bytes, and how many leading nibbles of
/// the first byte are padding (0 or 1).
#[derive(Debug, Clone, Copy, PartialEq, Eq, Structural)]
pub struct PathLayout {
    pub bytes: ByteRange,
    pub offset: usize,
}

impl PathLayout {
    /// Number of nibbles of the path.
    pub open spec fn nibble_count(self) -> int {
        self.bytes.len() * 2 - self.offset
    }
}

/// Where a child reference lies, and whether it is a hash or an inline node.
#[derive(Debug, Clone, Copy, PartialEq, Eq, Structural)]
pub enum HandleLayout {
    Hash(ByteRange),
    Inline(ByteRange),
}

impl HandleLayout {
    pub open spec fn range(self) -> ByteRange {
        match self {
            HandleLayout::Hash(r) => r,
            HandleLayout::Inline(r) => r,
        }
    }

    /// A reference is a hash exactly when it has the length of one.
    pub open spec fn wf(self) -> bool {
        &&& self.range().wf()
        &&& (self is Hash <==> self.range().len() == HASH_LENGTH)
    }
}

/// The layout of a decoded node: which kind it is and where its fields lie
/// in the input.
#[allow(inconsistent_fields)]
#[derive(Debug, Clone, PartialEq, Eq)]
pub enum NodeLayout {
    Empty,
    Leaf { partial: PathLayout, value: ByteRange },
    Extension { partial: PathLayout, child: HandleLayout },
    Branch { value: Option<ByteRange>, children: Vec<Option<HandleLayout>> },
}

/// A trie node as a mathematical value.
#[allow(inconsistent_fields)]
pub enum Node {
    Empty,
    /// `partial` holds the packed nibbles; with an odd count the first byte
    /// holds one nibble, in its low half.
    Leaf { nibble_count: nat, partial: Seq<u8>, value: Seq<u8> },
    Extension { nibble_count: nat, partial: Seq<u8>, child: Seq<u8> },
    Branch { value: Option<Seq<u8>>, children: Seq<Option<Seq<u8>>> },
}

/// Bytes that `count` nibbles are packed into.
pub open spec fn packed_len(count: int) -> int {
    (count + 1) / 2
}

/// The bits of a children bitmap: bit `i` is set where child `i` of the
/// first `k` (at most 16) is present.
pub open spec fn bitmap_upto(present: Seq<bool>, k: nat) -> u16
    decreases k,
{
    if k == 0 {
        0
    } else {
        let rest = bitmap_upto(present, (k - 1) as nat);
        if k <= 16 && k <= present.len() && present[k - 1] {
            rest | (1u16 << ((k - 1) as u16))
        } else {
            rest
        }
    }
}

pub open spec fn bitmap_of(present: Seq<bool>) -> u16 {
    bitmap_upto(present, present.len())
}

/// Which children are present.
pub open spec fn presence(children: Seq<Option<Seq<u8>>>) -> Seq<bool> {
    Seq::new(children.len(), |i: int| children[i] is Some)
}

/// One child as it stands in a branch: nothing if absent, else length-prefixed.
pub open spec fn child_bytes(child: Option<Seq<u8>>) -> Seq<u8> {
    match child {
        Some(c) => length_prefixed(c),
        None => Seq::empty(),
    }
}

/// The children of a branch, one after the other.
pub open spec fn children_bytes(children: Seq<Option<Seq<u8>>>) -> Seq<u8>
    decreases children.len(),
{
    if children.len() == 0 {
        Seq::empty()
    } else {
        children_bytes(children.drop_last()) + child_bytes(children.last())
    }
}

/// The optional value of a branch as it stands in the encoding.
pub open spec fn value_bytes(value: Option<Seq<u8>>) -> Seq<u8> {
    match value {
        Some(v) => length_prefixed(v),
        None => Seq::empty(),
    }
}

/// Header and children bitmap of a branch: the header byte, then the
/// bitmap, low byte first.
pub open spec fn branch_prefix(has_value: bool, present: Seq<bool>) -> Seq<u8> {
    let bitmap = bitmap_of(present);
    seq![
        if has_value { BRANCH_NODE_WITH_VALUE } else { BRANCH_NODE_NO_VALUE },
        (bitmap % 256) as u8,
        (bitmap / 256) as u8,
    ]
}

impl Node {
    /// What the codec can encode and decode again: a path short enough for
    /// its header, packed into the right number of bytes; fields whose
    /// lengths fit a 32-bit prefix; sixteen children to a branch.
    pub open spec fn wf(self) -> bool {
        match self {
            Node::Empty => true,
            Node::Leaf { nibble_count, partial, value } => {
                &&& nibble_count < LEAF_NODE_OVER
                &&& partial.len() == packed_len(nibble_count as int)
                &&& value.len() <= u32::MAX
            },
            Node::Extension { nibble_count, partial, child } => {
                &&& nibble_count < EXTENSION_NODE_OVER
                &&& partial.len() == packed_len(nibble_count as int)
                &&& child.len() <= u32::MAX
            },
            Node::Branch { value, children } => {
                &&& children.len() == NIBBLE_LENGTH
                &&& (value matches Some(v) ==> v.len() <= u32::MAX)
                &&& forall|i: int|
                    0 <= i < children.len() ==> (#[trigger] children[i] matches Some(c)
                        ==> c.len() <= u32::MAX)
            },
        }
    }

    /// The encoding of the node.
    pub open spec fn bytes(self) -> Seq<u8> {
        match self {
            Node::Empty => seq![EMPTY_TRIE],
            Node::Leaf { nibble_count, partial, value } => {
                seq![(LEAF_NODE_OFFSET + nibble_count) as u8] + partial + length_prefixed(value)
            },
            Node::Extension { nibble_count, partial, child } => {
                seq![(EXTENSION_NODE_OFFSET + nibble_count) as u8] + partial + length_prefixed(
                    child,
                )
            },
            Node::Branch { value, children } => {
                branch_prefix(value is Some, presence(children)) + value_bytes(value)
                    + children_bytes(children)
            },
        }
    }
}

/// `trie_db::nibble_ops::pad_right` keeps the low nibble of a byte.
pub assume_specification[ trie_db::nibble_ops::pad_right ](b: u8) -> (r: u8)
    ensures
        r == b & 0x0f,
;

/// `trie_db::nibble_ops::number_padding` is the number of padding nibbles
/// in front of a packed path of `i` nibbles: its parity.
pub assume_specification[ trie_db::nibble_ops::number_padding ](i: usize) -> (r: usize)
    ensures
        r == i % 2,
;

/// A node header.
#[derive(Copy, Clone, PartialEq, Eq, Debug, Structural)]
pub enum NodeHeader {
    Null,
    Branch(bool),
    Extension(usize),
    Leaf(usize),
}

impl NodeHeader {
    /// Nibble counts that have a header byte.
    pub open spec fn wf(self) -> bool {
        match self {
            NodeHeader::Leaf(n) => n < LEAF_NODE_OVER,
            NodeHeader::Extension(n) => n < EXTENSION_NODE_OVER,
            _ => true,
        }
    }

    /// The header byte.
    pub open spec fn byte(self) -> u8 {
        match self {
            NodeHeader::Null => EMPTY_TRIE,
            NodeHeader::Branch(true) => BRANCH_NODE_WITH_VALUE,
            NodeHeader::Branch(false) => BRANCH_NODE_NO_VALUE,
            NodeHeader::Leaf(n) => (LEAF_NODE_OFFSET + n) as u8,
            NodeHeader::Extension(n) => (EXTENSION_NODE_OFFSET + n) as u8,
        }
    }

    /// The header that a byte stands for.
    pub open spec fn of_byte(b: u8) -> NodeHeader {
        if b == EMPTY_TRIE {
            NodeHeader::Null
        } else if b == BRANCH_NODE_NO_VALUE {
            NodeHeader::Branch(false)
        } else if b == BRANCH_NODE_WITH_VALUE {
            NodeHeader::Branch(true)
        } else if b <= LEAF_NODE_LAST {
            NodeHeader::Leaf((b - LEAF_NODE_OFFSET) as usize)
        } else {
            NodeHeader::Extension((b - EXTENSION_NODE_OFFSET) as usize)
        }
    }

    /// Appends the header byte to `output`.
    pub fn encode_to(&self, output: &mut Vec<u8>)
        requires
            self.wf(),
        ensures
            final(output)@ == old(output)@.push(self.byte()),
    {
        match self {
            NodeHeader::Null => output.push(EMPTY_TRIE),
            NodeHeader::Branch(true) => output.push(BRANCH_NODE_WITH_VALUE),
            NodeHeader::Branch(false) => output.push(BRANCH_NODE_NO_VALUE),
            NodeHeader::Leaf(nibble_count) => output.push(LEAF_NODE_OFFSET + *nibble_count as u8),
            NodeHeader::Extension(nibble_count) => output.push(
                EXTENSION_NODE_OFFSET + *nibble_count as u8,
            ),
        }
    }

    /// Reads one byte of `input` as a header.
    pub fn decode(input: &mut ByteSliceInput) -> (res: Result<NodeHeader, CodecError>)
        ensures
            final(input).bytes() == old(input).bytes(),
            old(input).position() < old(input).bytes().len() ==> {
                &&& res == Ok::<NodeHeader, CodecError>(
                    NodeHeader::of_byte(old(input).bytes()[old(input).position() as int]),
                )
                &&& final(input).position() == old(input).position() + 1
            },
            old(input).position() >= old(input).bytes().len() ==> {
                &&& res == Err::<NodeHeader, CodecError>(CodecError::OutOfData)
                &&& final(input).position() == old(input).position()
            },
    {
        let b = match input.read_byte() {
            Ok(b) => b,
            Err(e) => {
                return Err(e);
            },
        };
        if b == EMPTY_TRIE {
            Ok(NodeHeader::Null)
        } else if b == BRANCH_NODE_NO_VALUE {
            Ok(NodeHeader::Branch(false))
        } else if b == BRANCH_NODE_WITH_VALUE {
            Ok(NodeHeader::Branch(true))
        } else if b <= LEAF_NODE_LAST {
            Ok(NodeHeader::Leaf((b - LEAF_NODE_OFFSET) as usize))
        } else {
            Ok(NodeHeader::Extension((b - EXTENSION_NODE_OFFSET) as usize))
        }
    }
}

/// The header of a well-formed node is read back from its byte.
pub proof fn lemma_header_round_trip(h: NodeHeader)
    requires
        h.wf(),
    ensures
        NodeHeader::of_byte(h.byte()) == h,
{
}

/// A cursor over an encoded node.
pub struct ByteSliceInput<'a> {
    data: &'a [u8],
    offset: usize,
}

impl<'a> ByteSliceInput<'a> {
    /// The input.
    pub closed spec fn bytes(&self) -> Seq<u8> {
        self.data@
    }

    /// How many bytes have been consumed.
    pub closed spec fn position(&self) -> usize {
        self.offset
    }

    pub fn new(data: &'a [u8]) -> (input: Self)
        ensures
            input.bytes() == data@,
            input.position() == 0,
    {
        ByteSliceInput { data, offset: 0 }
    }

    /// Consumes `count` bytes and returns where they lie, or fails and
    /// consumes nothing where fewer are left.
    pub fn take(&mut self, count: usize) -> (res: Result<ByteRange, CodecError>)
        ensures
            final(self).bytes() == old(self).bytes(),
            old(self).position() + count <= old(self).bytes().len() ==> {
                &&& res == Ok::<ByteRange, CodecError>(
                    ByteRange {
                        start: old(self).position(),
                        end: (old(self).position() + count) as usize,
                    },
                )
                &&& final(self).position() == old(self).position() + count
            },
            old(self).position() + count > old(self).bytes().len() ==> {
                &&& res == Err::<ByteRange, CodecError>(CodecError::OutOfData)
                &&& final(self).position() == old(self).position()
            },
    {
        let len = self.data.len();
        if self.offset > len || count > len - self.offset {
            return Err(CodecError::OutOfData);
        }
        let range = ByteRange { start: self.offset, end: self.offset + count };
        self.offset += count;
        Ok(range)
    }

    /// Bytes left, or `None` where the cursor stands behind the end.
    pub fn remaining_len(&mut self) -> (res: Result<Option<usize>, CodecError>)
        ensures
            *final(self) == *old(self),
            res == Ok::<Option<usize>, CodecError>(
                if old(self).position() <= old(self).bytes().len() {
                    Some((old(self).bytes().len() - old(self).position()) as usize)
                } else {
                    None
                },
            ),
    {
        let remaining = if self.offset <= self.data.len() {
            Some(self.data.len() - self.offset)
        } else {
            None
        };
        Ok(remaining)
    }

    /// Consumes as many bytes as `into` holds and copies them there, or
    /// fails and changes nothing where fewer are left.
    pub fn read(&mut self, into: &mut Vec<u8>) -> (res: Result<(), CodecError>)
        ensures
            final(self).bytes() == old(self).bytes(),
            old(self).position() + old(into).len() <= old(self).bytes().len() ==> {
                &&& res is Ok
                &&& final(self).position() == old(self).position() + old(into).len()
                &&& final(into)@ == old(self).bytes().subrange(
                    old(self).position() as int,
                    old(self).position() + old(into).len(),
                )
            },
            old(self).position() + old(into).len() > old(self).bytes().len() ==> {
                &&& res == Err::<(), CodecError>(CodecError::OutOfData)
                &&& final(self).position() == old(self).position()
                &&& final(into)@ == old(into)@
            },
    {
        let count = into.len();
        let range = match self.take(count) {
            Ok(range) => range,
            Err(e) => {
                return Err(e);
            },
        };
        into.clear();
        into.extend_from_slice(slice_subrange(self.data, range.start, range.end));
        Ok(())
    }

    /// Consumes a length prefix and the field of that length behind it,
    /// and returns where the field lies. Fails with `BadLength` where no
    /// length prefix stands at the cursor, and with `OutOfData` where the
    /// input ends before the field does.
    pub fn take_length_prefixed(&mut self) -> (res: Result<ByteRange, CodecError>)
        requires
            old(self).position() <= old(self).bytes().len(),
        ensures
            final(self).bytes() == old(self).bytes(),
            res matches Err(e) ==> field_error(old(self).bytes(), old(self).position() as int)
                == Some(e),
            res matches Ok(r) ==> {
                &&& field_error(old(self).bytes(), old(self).position() as int) is None
                &&& r.end == field_end(old(self).bytes(), old(self).position() as int)
                &&& field_placed(r, old(self).position() as int)
                &&& r.end <= old(self).bytes().len()
                &&& final(self).position() == r.end
                &&& length_prefixed(r.of(old(self).bytes())) == old(self).bytes().subrange(
                    old(self).position() as int,
                    r.end as int,
                )
            },
            res is Err ==> forall|f: Seq<u8>|
                f.len() <= u32::MAX ==> !(#[trigger] length_prefixed(f)).is_prefix_of(
                    old(self).bytes().skip(old(self).position() as int),
                ),
    {
        let ghost start = self.offset as int;
        let ghost rest = self.data@.skip(start);
        let len = self.data.len();
        let count = match compact_decode(slice_subrange(self.data, self.offset, len)) {
            Ok(count) => count,
            Err(_) => {
                proof {
                    assert forall|f: Seq<u8>| f.len() <= u32::MAX implies !(
                    #[trigger] length_prefixed(f)).is_prefix_of(rest) by {
                        if length_prefixed(f).is_prefix_of(rest) {
                            lemma_prefix_split(compact_u32_bytes(f.len() as u32), f, rest);
                        }
                    }
                }
                return Err(CodecError::BadLength);
            },
        };
        proof {
            lemma_compact_len(count);
            lemma_compact_prefix(count, rest);
        }
        let width = compact_width(count);
        self.offset += width;
        match self.take(count as usize) {
            Ok(range) => {
                proof {
                    let field = range.of(self.data@);
                    assert(field =~= rest.skip(width as int).subrange(0, count as int));
                    lemma_prefix_join(compact_u32_bytes(count), field, rest);
                    assert(length_prefixed(field) =~= self.data@.subrange(start, range.end as int));
                }
                Ok(range)
            },
            Err(e) => {
                proof {
                    assert forall|f: Seq<u8>| f.len() <= u32::MAX implies !(
                    #[trigger] length_prefixed(f)).is_prefix_of(rest) by {
                        if length_prefixed(f).is_prefix_of(rest) {
                            lemma_prefix_split(compact_u32_bytes(f.len() as u32), f, rest);
                            lemma_compact_prefix_unique(f.len() as u32, count, rest);
                        }
                    }
                }
                Err(e)
            },
        }
    }

    /// Consumes one byte.
    pub fn read_byte(&mut self) -> (res: Result<u8, CodecError>)
        ensures
            final(self).bytes() == old(self).bytes(),
            old(self).position() < old(self).bytes().len() ==> {
                &&& res == Ok::<u8, CodecError>(old(self).bytes()[old(self).position() as int])
                &&& final(self).position() == old(self).position() + 1
            },
            old(self).position() >= old(self).bytes().len() ==> {
                &&& res == Err::<u8, CodecError>(CodecError::OutOfData)
                &&& final(self).position() == old(self).position()
            },
    {
        if self.offset >= self.data.len() {
            return Err(CodecError::OutOfData);
        }
        let byte = self.data[self.offset];
        self.offset += 1;
        Ok(byte)
    }
}

/// Children bitmap codec for radix 16 trie.
#[derive(Debug, Clone, Copy, PartialEq, Eq, Structural)]
pub struct Bitmap(u16);

/// Whether bit `i` of a bitmap is set.
pub open spec fn bitmap_bit(bits: u16, i: int) -> bool {
    bits & (1u16 << (i as u16)) != 0
}

impl Bitmap {
    /// The sixteen bits.
    pub closed spec fn bits(self) -> u16 {
        self.0
    }

    /// Whether child `i` is present.
    pub open spec fn has_child(self, i: int) -> bool {
        bitmap_bit(self.bits(), i)
    }

    /// Reads a bitmap from the first two bytes of `data`, low byte first.
    pub fn decode(data: &[u8]) -> (res: Result<Bitmap, CodecError>)
        ensures
            data@.len() >= BITMAP_LENGTH ==> res is Ok && res.unwrap().bits() == data@[0] + 256
                * data@[1],
            data@.len() < BITMAP_LENGTH ==> res == Err::<Bitmap, CodecError>(
                CodecError::OutOfData,
            ),
    {
        if data.len() < BITMAP_LENGTH {
            return Err(CodecError::OutOfData);
        }
        let low: u16 = data[0] as u16;
        let high: u16 = data[1] as u16;
        Ok(Bitmap(low + 256 * high))
    }

    pub fn value_at(&self, i: usize) -> (b: bool)
        requires
            i < NIBBLE_LENGTH,
        ensures
            b == self.has_child(i as int),
    {
        self.0 & (1u16 << (i as u16)) != 0
    }

    /// The bitmap of the children that `has_children` marks, as its two
    /// bytes, low byte first. Marks behind the sixteenth are ignored.
    pub fn encode(has_children: &[bool]) -> (output: [u8; 2])
        ensures
            output@ == seq![
                (bitmap_of(has_children@) % 256) as u8,
                (bitmap_of(has_children@) / 256) as u8,
            ],
    {
        let mut bitmap: u16 = 0;
        let mut cursor: u16 = 1;
        let mut i: usize = 0;
        assert(1u16 << 0u16 == 1u16) by (bit_vector);
        while i < has_children.len()
            invariant
                i <= has_children@.len(),
                bitmap == bitmap_upto(has_children@, i as nat),
                i < 16 ==> cursor == 1u16 << (i as u16),
                i >= 16 ==> cursor == 0,
            decreases has_children@.len() - i,
        {
            let v = has_children[i];
            if v {
                assert(bitmap | 0u16 == bitmap) by (bit_vector);
                bitmap |= cursor;
            }
            proof {
                let j = i as u16;
                assert(j < 15 ==> (1u16 << j) << 1u16 == 1u16 << ((j + 1) as u16)) by (bit_vector);
                assert((1u16 << 15u16) << 1u16 == 0u16) by (bit_vector);
                assert(0u16 << 1u16 == 0u16) by (bit_vector);
            }
            cursor <<= 1;
            i += 1;
        }
        let output: [u8; 2] = [(bitmap % 256) as u8, (bitmap / 256) as u8];
        assert(output@ =~= seq![
            (bitmap_of(has_children@) % 256) as u8,
            (bitmap_of(has_children@) / 256) as u8,
        ]);
        output
    }
}

/// A reference to a child node: its hash, or the node itself where its
/// encoding is shorter than a hash. Of an inline node the first `len` bytes
/// of the buffer count.
#[derive(Debug, Clone, Copy, PartialEq, Eq)]
pub enum ChildRef {
    Hash(Hash256),
    Inline(Hash256, usize),
}

impl ChildRef {
    pub open spec fn wf(self) -> bool {
        match self {
            ChildRef::Hash(_) => true,
            ChildRef::Inline(_, len) => len <= HASH_LENGTH,
        }
    }

    /// The bytes that stand for the child in its parent.
    pub open spec fn bytes(self) -> Seq<u8> {
        match self {
            ChildRef::Hash(h) => h@,
            ChildRef::Inline(data, len) => data@.subrange(0, len as int),
        }
    }

    /// Appends the reference, length-prefixed, to `output`.
    fn encode_to(&self, output: &mut Vec<u8>)
        requires
            self.wf(),
        ensures
            final(output)@ == old(output)@ + length_prefixed(self.bytes()),
    {
        match self {
            ChildRef::Hash(h) => push_length_prefixed(output, h.as_slice()),
            ChildRef::Inline(data, len) => push_length_prefixed(
                output,
                slice_subrange(data.as_slice(), 0, *len),
            ),
        }
    }
}

/// The children of a branch as the node model sees them.
pub open spec fn children_view(children: Seq<Option<ChildRef>>) -> Seq<Option<Seq<u8>>> {
    Seq::new(
        children.len(),
        |i: int|
            match children[i] {
                Some(c) => Some(c.bytes()),
                None => None,
            },
    )
}

/// Appends `field`, length-prefixed, to `output`.
fn push_length_prefixed(output: &mut Vec<u8>, field: &[u8])
    requires
        field@.len() <= u32::MAX,
    ensures
        final(output)@ == old(output)@ + length_prefixed(field@),
{
    let mut prefix = compact_encode(field.len() as u32);
    output.append(&mut prefix);
    output.extend_from_slice(field);
    assert(output@ =~= old(output)@ + length_prefixed(field@));
}

/// The nibbles of a partial path as they are packed into a node: the odd
/// first nibble, if there is one, in the low half of a byte of its own.
pub open spec fn packed_partial(first: (u8, u8), rest: Seq<u8>) -> Seq<u8> {
    if first.0 > 0 {
        seq![first.1 & 0x0f] + rest
    } else {
        rest
    }
}

/// Number of nibbles of a partial path.
pub open spec fn partial_nibbles(first: (u8, u8), rest: Seq<u8>) -> nat {
    (rest.len() * 2 + first.0) as nat
}

/// Header and path of a leaf or extension: the header byte `offset +
/// nibble_count`, then the packed path.
fn partial_to_key(partial: Partial, offset: u8, over: u8) -> (output: Vec<u8>)
    requires
        partial_nibbles(partial.0, partial.1@) < over,
        offset + over <= 256,
    ensures
        output@ == seq![(offset + partial_nibbles(partial.0, partial.1@)) as u8] + packed_partial(
            partial.0,
            partial.1@,
        ),
{
    let number_nibble_encoded = (partial.0).0 as usize;
    let nibble_count = partial.1.len() * 2 + number_nibble_encoded;
    let mut output: Vec<u8> = Vec::new();
    output.push(offset + nibble_count as u8);
    if number_nibble_encoded > 0 {
        output.push(trie_db::nibble_ops::pad_right((partial.0).1));
    }
    output.extend_from_slice(partial.1);
    assert(output@ =~= seq![(offset + partial_nibbles(partial.0, partial.1@)) as u8]
        + packed_partial(partial.0, partial.1@));
    output
}

/// Header and path of a leaf or extension whose path is already packed.
fn partial_from_iterator_to_key(partial: &[u8], nibble_count: usize, offset: u8, over: u8) -> (output:
    Vec<u8>)
    requires
        nibble_count < over,
        offset + over <= 256,
    ensures
        output@ == seq![(offset + nibble_count) as u8] + partial@,
{
    let mut output: Vec<u8> = Vec::with_capacity(1 + nibble_count / 2);
    output.push(offset + nibble_count as u8);
    output.extend_from_slice(partial);
    assert(output@ =~= seq![(offset + nibble_count) as u8] + partial@);
    output
}

/// Writes the header of a branch and its children bitmap into the first
/// three bytes of `output`.
pub fn branch_node_buffered(has_value: bool, has_children: &[bool], output: &mut Vec<u8>)
    requires
        old(output)@.len() >= BITMAP_LENGTH + 1,
    ensures
        final(output)@ == branch_prefix(has_value, has_children@) + old(output)@.skip(
            BITMAP_LENGTH + 1,
        ),
{
    let first = if has_value {
        BRANCH_NODE_WITH_VALUE
    } else {
        BRANCH_NODE_NO_VALUE
    };
    let bitmap = Bitmap::encode(has_children);
    output.set(0, first);
    output.set(1, bitmap[0]);
    output.set(2, bitmap[1]);
    assert(output@ =~= branch_prefix(has_value, has_children@) + old(output)@.skip(
        BITMAP_LENGTH + 1,
    ));
}

/// The parameters of the trie layout: radix 16 with extension nodes,
/// Keccak-256 hashes, no empty values, and every value in its node.
#[derive(Default, Clone)]
pub struct ExtensionLayout;

impl ExtensionLayout {
    /// Partial paths stand in extension nodes of their own, not in branches.
    pub const USE_EXTENSION: bool = true;

    /// To insert an empty value is to remove the key.
    pub const ALLOW_EMPTY: bool = false;

    /// No value is too long to stand in its node.
    pub const MAX_INLINE_VALUE: Option<u32> = None;

    /// Whether the parameters given are the parameters of this layout.
    pub fn has_parameters(
        use_extension: bool,
        allow_empty: bool,
        max_inline_value: Option<u32>,
    ) -> (same: bool)
        ensures
            same == (use_extension && !allow_empty && max_inline_value is None),
    {
        use_extension == Self::USE_EXTENSION && allow_empty == Self::ALLOW_EMPTY
            && max_inline_value.is_none()
    }
}

/// The node codec of [`ExtensionLayout`].
#[derive(Default, Clone)]
pub struct ReferenceNodeCodec;

impl ReferenceNodeCodec {
    /// The hash of the empty node, which is the root of the empty trie.
    pub fn hashed_null_node() -> (out: Hash256)
        ensures
            out@ == keccak256(Node::Empty.bytes()),
    {
        let empty = Self::empty_node();
        keccak_hash(empty.as_slice())
    }

    /// Whether `data` is the encoding of the empty node.
    pub fn is_empty_node(data: &[u8]) -> (b: bool)
        ensures
            b == (data@ == Node::Empty.bytes()),
    {
        let b = data.len() == 1 && data[0] == EMPTY_TRIE;
        assert(b == (data@ =~= Node::Empty.bytes()));
        b
    }

    /// The encoding of the empty node: the single byte `0x00`.
    pub fn empty_node() -> (out: [u8; 1])
        ensures
            out@ == Node::Empty.bytes(),
    {
        let out = [EMPTY_TRIE];
        assert(out@ =~= Node::Empty.bytes());
        out
    }

    /// The leaf that `leaf_node` encodes.
    pub open spec fn leaf_of(first: (u8, u8), rest: Seq<u8>, value: Seq<u8>) -> Node {
        Node::Leaf {
            nibble_count: partial_nibbles(first, rest),
            partial: packed_partial(first, rest),
            value,
        }
    }

    /// Encodes a leaf.
    pub fn leaf_node(partial: Partial, value: &[u8]) -> (output: Vec<u8>)
        requires
            partial_nibbles(partial.0, partial.1@) < LEAF_NODE_OVER,
            value@.len() <= u32::MAX,
        ensures
            output@ == Self::leaf_of(partial.0, partial.1@, value@).bytes(),
            partial.0.0 <= 1 ==> Self::leaf_of(partial.0, partial.1@, value@).wf(),
    {
        let mut output = partial_to_key(partial, LEAF_NODE_OFFSET, LEAF_NODE_OVER);
        push_length_prefixed(&mut output, value);
        output
    }

    /// Encodes an extension whose path of `number_nibble` nibbles is packed
    /// in `partial`.
    pub fn extension_node(partial: &[u8], number_nibble: usize, child: ChildRef) -> (output:
        Vec<u8>)
        requires
            number_nibble < EXTENSION_NODE_OVER,
            child.wf(),
        ensures
            output@ == (Node::Extension {
                nibble_count: number_nibble as nat,
                partial: partial@,
                child: child.bytes(),
            }).bytes(),
    {
        let mut output = partial_from_iterator_to_key(
            partial,
            number_nibble,
            EXTENSION_NODE_OFFSET,
            EXTENSION_NODE_OVER,
        );
        child.encode_to(&mut output);
        output
    }

    /// The branch that `branch_node` encodes.
    pub open spec fn branch_of(children: Seq<Option<ChildRef>>, value: Option<Seq<u8>>) -> Node {
        Node::Branch { value, children: children_view(children) }
    }

    /// Encodes a branch: header and bitmap, the value if there is one, then
    /// the children that are present, in order.
    pub fn branch_node(children: &[Option<ChildRef>], maybe_value: Option<&[u8]>) -> (output:
        Vec<u8>)
        requires
            forall|i: int|
                0 <= i < children@.len() ==> (#[trigger] children@[i] matches Some(c) ==> c.wf()),
            maybe_value matches Some(v) ==> v@.len() <= u32::MAX,
        ensures
            output@ == Self::branch_of(
                children@,
                match maybe_value {
                    Some(v) => Some(v@),
                    None => None,
                },
            ).bytes(),
    {
        let ghost value: Option<Seq<u8>> = match maybe_value {
            Some(v) => Some(v@),
            None => None,
        };
        let ghost model = children_view(children@);
        let mut body: Vec<u8> = Vec::new();
        let have_value = match maybe_value {
            Some(value) => {
                push_length_prefixed(&mut body, value);
                true
            },
            None => false,
        };
        assert(body@ =~= value_bytes(value));
        let mut has_children: Vec<bool> = Vec::new();
        let mut i: usize = 0;
        assert(model.take(0) =~= Seq::empty());
        while i < children.len()
            invariant
                i <= children@.len(),
                model == children_view(children@),
                has_children@ == presence(model).take(i as int),
                body@ == value_bytes(value) + children_bytes(model.take(i as int)),
                forall|j: int|
                    0 <= j < children@.len() ==> (#[trigger] children@[j] matches Some(c)
                        ==> c.wf()),
            decreases children@.len() - i,
        {
            let ghost before = body@;
            match &children[i] {
                Some(child) => {
                    child.encode_to(&mut body);
                    has_children.push(true);
                },
                None => {
                    has_children.push(false);
                },
            }
            proof {
                let next = model.take(i + 1);
                assert(next.drop_last() =~= model.take(i as int));
                assert(next.last() == model[i as int]);
                assert(body@ =~= before + child_bytes(model[i as int]));
                assert(body@ =~= value_bytes(value) + children_bytes(next));
                assert(has_children@ =~= presence(model).take(i + 1));
            }
            i += 1;
        }
        assert(model.take(i as int) =~= model);
        assert(has_children@ =~= presence(model));
        let mut output: Vec<u8> = Vec::new();
        output.push(0);
        output.push(0);
        output.push(0);
        branch_node_buffered(have_value, has_children.as_slice(), &mut output);
        output.append(&mut body);
        assert(output@ =~= Self::branch_of(children@, value).bytes());
        output
    }
}

/// The children of a decoded branch as the node model sees them.
pub open spec fn handles_view(handles: Seq<Option<HandleLayout>>, data: Seq<u8>) -> Seq<
    Option<Seq<u8>>,
> {
    Seq::new(
        handles.len(),
        |i: int|
            match handles[i] {
                Some(h) => Some(h.range().of(data)),
                None => None,
            },
    )
}

/// The optional value of a decoded branch as the node model sees it.
pub open spec fn value_view(value: Option<ByteRange>, data: Seq<u8>) -> Option<Seq<u8>> {
    match value {
        Some(r) => Some(r.of(data)),
        None => None,
    }
}

impl PathLayout {
    /// A path lies right behind the header, with at most one nibble of padding.
    pub open spec fn placed(self) -> bool {
        &&& self.bytes.wf()
        &&& self.bytes.start == 1
        &&& self.offset <= 1
        &&& self.offset <= self.bytes.len()
    }
}

impl NodeLayout {
    /// The node that the plan describes in `data`.
    pub open spec fn node(self, data: Seq<u8>) -> Node {
        match self {
            NodeLayout::Empty => Node::Empty,
            NodeLayout::Leaf { partial, value } => Node::Leaf {
                nibble_count: partial.nibble_count() as nat,
                partial: partial.bytes.of(data),
                value: value.of(data),
            },
            NodeLayout::Extension { partial, child } => Node::Extension {
                nibble_count: partial.nibble_count() as nat,
                partial: partial.bytes.of(data),
                child: child.range().of(data),
            },
            NodeLayout::Branch { value, children } => Node::Branch {
                value: value_view(value, data),
                children: handles_view(children@, data),
            },
        }
    }

    /// Every range lies where the encoding puts its field: each one right
    /// behind its length prefix, the fields one after the other, and all of
    /// them inside `data`.
    pub open spec fn placed(self, data: Seq<u8>) -> bool {
        match self {
            NodeLayout::Empty => true,
            NodeLayout::Leaf { partial, value } => {
                &&& partial.placed()
                &&& field_placed(value, partial.bytes.end as int)
                &&& value.end <= data.len()
            },
            NodeLayout::Extension { partial, child } => {
                &&& partial.placed()
                &&& child.wf()
                &&& field_placed(child.range(), partial.bytes.end as int)
                &&& child.range().end <= data.len()
            },
            NodeLayout::Branch { value, children } => {
                &&& children@.len() == NIBBLE_LENGTH
                &&& (value matches Some(r) ==> field_placed(r, BITMAP_LENGTH + 1) && r.end
                    <= data.len())
                &&& forall|i: int|
                    0 <= i < children@.len() ==> (#[trigger] children@[i] matches Some(h) ==> {
                        &&& h.wf()
                        &&& h.range().end <= data.len()
                        &&& field_placed(
                            h.range(),
                            BITMAP_LENGTH + 1 + value_bytes(value_view(value, data)).len()
                                + children_bytes(handles_view(children@, data).take(i)).len(),
                        )
                    })
            },
        }
    }

    /// The plan is the layout of a well-formed node whose encoding `data` begins with.
    pub open spec fn describes(self, data: Seq<u8>) -> bool {
        &&& self.placed(data)
        &&& self.node(data).wf()
        &&& self.node(data).bytes().is_prefix_of(data)
    }
}

/// Whether `data` begins with the encoding of a well-formed node.
pub open spec fn decodable(data: Seq<u8>) -> bool {
    exists|n: Node| n.wf() && #[trigger] n.bytes().is_prefix_of(data)
}

/// Bit `i` of the bitmap of the first `k` children is set exactly where
/// child `i` is among them and present.
pub proof fn lemma_bitmap_bit(present: Seq<bool>, k: nat, i: int)
    requires
        0 <= i < 16,
    ensures
        bitmap_bit(bitmap_upto(present, k), i) == (i < k && i < present.len() && present[i]),
    decreases k,
{
    let iu = i as u16;
    if k == 0 {
        assert(0u16 & (1u16 << iu) == 0) by (bit_vector);
    } else {
        lemma_bitmap_bit(present, (k - 1) as nat, i);
        let rest = bitmap_upto(present, (k - 1) as nat);
        if k <= 16 && k <= present.len() && present[k - 1] {
            let ju = (k - 1) as u16;
            if ju == iu {
                assert((rest | (1u16 << iu)) & (1u16 << iu) != 0) by (bit_vector)
                    requires
                        iu < 16,
                ;
            } else {
                assert(((rest | (1u16 << ju)) & (1u16 << iu) != 0) == (rest & (1u16 << iu) != 0))
                    by (bit_vector)
                    requires
                        iu < 16,
                        ju < 16,
                        iu != ju,
                ;
            }
        }
    }
}

/// Sixteen children with the same bitmap are present at the same places.
pub proof fn lemma_bitmap_presence(p: Seq<bool>, q: Seq<bool>)
    requires
        p.len() == 16,
        q.len() == 16,
        bitmap_of(p) == bitmap_of(q),
    ensures
        p == q,
{
    assert forall|i: int| 0 <= i < 16 implies p[i] == q[i] by {
        lemma_bitmap_bit(p, 16, i);
        lemma_bitmap_bit(q, 16, i);
    }
    assert(p =~= q);
}

/// The bytes of the first `k` children begin the bytes of all of them.
pub proof fn lemma_children_bytes_take(children: Seq<Option<Seq<u8>>>, k: int)
    requires
        0 <= k <= children.len(),
    ensures
        children_bytes(children.take(k)).is_prefix_of(children_bytes(children)),
    decreases children.len(),
{
    if k == children.len() {
        assert(children.take(k) =~= children);
    } else {
        let front = children.drop_last();
        lemma_children_bytes_take(front, k);
        assert(front.take(k) =~= children.take(k));
        let a = children_bytes(children.take(k));
        let b = children_bytes(front);
        let c = children_bytes(children);
        assert(c == b + child_bytes(children.last()));
        assert(a =~= c.subrange(0, a.len() as int)) by {
            assert(a =~= b.subrange(0, a.len() as int));
        }
    }
}

/// The bytes of the first `k + 1` children are those of the first `k`, then child `k`.
pub proof fn lemma_children_bytes_step(children: Seq<Option<Seq<u8>>>, k: int)
    requires
        0 <= k < children.len(),
    ensures
        children_bytes(children.take(k + 1)) == children_bytes(children.take(k)) + child_bytes(
            children[k],
        ),
{
    let next = children.take(k + 1);
    assert(next.drop_last() =~= children.take(k));
    assert(next.last() == children[k]);
}

/// What the first byte of an encoded node says of the node.
pub proof fn lemma_node_header(n: Node, data: Seq<u8>)
    requires
        n.wf(),
        n.bytes().is_prefix_of(data),
    ensures
        data.len() >= 1,
        match n {
            Node::Empty => NodeHeader::of_byte(data[0]) == NodeHeader::Null,
            Node::Leaf { nibble_count, .. } => NodeHeader::of_byte(data[0]) == NodeHeader::Leaf(
                nibble_count as usize,
            ),
            Node::Extension { nibble_count, .. } => NodeHeader::of_byte(data[0])
                == NodeHeader::Extension(nibble_count as usize),
            Node::Branch { value, .. } => NodeHeader::of_byte(data[0]) == NodeHeader::Branch(
                value is Some,
            ),
        },
{
    let e = n.bytes();
    assert(e.len() >= 1);
    assert(e[0] == data.subrange(0, e.len() as int)[0]);
}

/// What an encoded leaf or extension says of its path and its field: the
/// path lies behind the header, the field behind the path.
pub proof fn lemma_path_node_shape(header: u8, partial: Seq<u8>, field: Seq<u8>, data: Seq<u8>)
    requires
        (seq![header] + partial + length_prefixed(field)).is_prefix_of(data),
    ensures
        1 + partial.len() <= data.len(),
        partial == data.subrange(1, 1 + partial.len() as int),
        length_prefixed(field).is_prefix_of(data.skip(1 + partial.len() as int)),
{
    let head = seq![header] + partial;
    lemma_prefix_split(head, length_prefixed(field), data);
    lemma_prefix_split(seq![header], partial, data);
    assert(partial =~= data.subrange(1, 1 + partial.len() as int)) by {
        let t = data.skip(1);
        assert(partial =~= t.subrange(0, partial.len() as int));
    }
}

/// What an encoded branch says of its bitmap, and where its fields lie.
pub proof fn lemma_branch_shape(value: Option<Seq<u8>>, children: Seq<Option<Seq<u8>>>, data: Seq<u8>)
    requires
        (Node::Branch { value, children }).bytes().is_prefix_of(data),
    ensures
        data.len() >= BITMAP_LENGTH + 1,
        bitmap_of(presence(children)) == data[1] + 256 * data[2],
        value_bytes(value).is_prefix_of(data.skip(BITMAP_LENGTH + 1)),
        children_bytes(children).is_prefix_of(
            data.skip(BITMAP_LENGTH + 1 + value_bytes(value).len()),
        ),
{
    let prefix = branch_prefix(value is Some, presence(children));
    let body = value_bytes(value) + children_bytes(children);
    assert((Node::Branch { value, children }).bytes() =~= prefix + body);
    lemma_prefix_split(prefix, body, data);
    assert(prefix[1] == data.subrange(0, 3)[1]);
    assert(prefix[2] == data.subrange(0, 3)[2]);
    let rest = data.skip(3);
    lemma_prefix_split(value_bytes(value), children_bytes(children), rest);
    assert(rest.skip(value_bytes(value).len() as int) =~= data.skip(
        3 + value_bytes(value).len() as int,
    ));
}

} // verus!
