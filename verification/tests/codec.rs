use wdn_node::database::trie_layout::{
    branch_node_buffered, Bitmap, ByteRange, ByteSliceInput, ChildRef, CodecError, HandleLayout,
    NodeHeader, NodeLayout, PathLayout, ReferenceNodeCodec,
};

fn range(start: usize, end: usize) -> ByteRange {
    ByteRange { start, end }
}

fn inline_child(bytes: &[u8]) -> ChildRef {
    let mut data = [0u8; 32];
    data[..bytes.len()].copy_from_slice(bytes);
    ChildRef::Inline(data, bytes.len())
}

#[test]
fn empty_node_is_the_zero_byte() {
    assert_eq!(ReferenceNodeCodec::empty_node(), [0x00]);
    assert!(ReferenceNodeCodec::is_empty_node(&[0x00]));
    assert!(!ReferenceNodeCodec::is_empty_node(&[]));
    assert!(!ReferenceNodeCodec::is_empty_node(&[0x01]));
    assert!(!ReferenceNodeCodec::is_empty_node(&[0x00, 0x00]));
    assert_eq!(ReferenceNodeCodec::decode_plan(&[0x00]).unwrap(), NodeLayout::Empty);
    assert_eq!(ReferenceNodeCodec::decode_plan(&[0x00, 0xff]).unwrap(), NodeLayout::Empty);
}

#[test]
fn hashed_null_node_is_keccak_of_the_zero_byte() {
    let expected: [u8; 32] = [
        0xbc, 0x36, 0x78, 0x9e, 0x7a, 0x1e, 0x28, 0x14, 0x36, 0x46, 0x42, 0x29, 0x82, 0x8f, 0x81,
        0x7d, 0x66, 0x12, 0xf7, 0xb4, 0x77, 0xd6, 0x65, 0x91, 0xff, 0x96, 0xa9, 0xe0, 0x64, 0xbc,
        0xc9, 0x8a,
    ];
    assert_eq!(ReferenceNodeCodec::hashed_null_node(), expected);
}

#[test]
fn leaf_with_even_path() {
    let bytes = ReferenceNodeCodec::leaf_node(((0, 0), &[0x12, 0x34]), b"abc");
    assert_eq!(bytes, vec![0x05, 0x12, 0x34, 0x0c, b'a', b'b', b'c']);
    assert_eq!(
        ReferenceNodeCodec::decode_plan(&bytes).unwrap(),
        NodeLayout::Leaf {
            partial: PathLayout { bytes: range(1, 3), offset: 0 },
            value: range(4, 7),
        }
    );
}

#[test]
fn leaf_with_odd_path_pads_the_first_nibble() {
    let bytes = ReferenceNodeCodec::leaf_node(((1, 0xf7), &[0x12]), b"v");
    assert_eq!(bytes, vec![0x04, 0x07, 0x12, 0x04, b'v']);
    assert_eq!(
        ReferenceNodeCodec::decode_plan(&bytes).unwrap(),
        NodeLayout::Leaf {
            partial: PathLayout { bytes: range(1, 3), offset: 1 },
            value: range(4, 5),
        }
    );
}

#[test]
fn leaf_with_empty_path_and_empty_value() {
    let bytes = ReferenceNodeCodec::leaf_node(((0, 0), &[]), b"");
    assert_eq!(bytes, vec![0x01, 0x00]);
    assert_eq!(
        ReferenceNodeCodec::decode_plan(&bytes).unwrap(),
        NodeLayout::Leaf {
            partial: PathLayout { bytes: range(1, 1), offset: 0 },
            value: range(2, 2),
        }
    );
}

#[test]
fn leaf_with_the_longest_path() {
    let path = [0x11u8; 63];
    let bytes = ReferenceNodeCodec::leaf_node(((0, 0), &path), b"x");
    assert_eq!(bytes[0], 0x7f);
    assert_eq!(bytes.len(), 1 + 63 + 2);
    match ReferenceNodeCodec::decode_plan(&bytes).unwrap() {
        NodeLayout::Leaf { partial, value } => {
            assert_eq!(partial, PathLayout { bytes: range(1, 64), offset: 0 });
            assert_eq!(value, range(65, 66));
        }
        other => panic!("{:?}", other),
    }
}

#[test]
fn length_prefix_widths() {
    for (len, prefix) in [
        (0usize, vec![0x00u8]),
        (1, vec![0x04]),
        (63, vec![0xfc]),
        (64, vec![0x01, 0x01]),
        (255, vec![0xfd, 0x03]),
        (16383, vec![0xfd, 0xff]),
        (16384, vec![0x02, 0x00, 0x01, 0x00]),
        (70000, vec![0xc2, 0x45, 0x04, 0x00]),
    ] {
        let value = vec![0x5au8; len];
        let bytes = ReferenceNodeCodec::leaf_node(((0, 0), &[0xab]), &value);
        assert_eq!(bytes[0], 0x03);
        assert_eq!(bytes[1], 0xab);
        assert_eq!(&bytes[2..2 + prefix.len()], prefix.as_slice(), "length {}", len);
        assert_eq!(&bytes[2 + prefix.len()..], value.as_slice());
        assert_eq!(
            ReferenceNodeCodec::decode_plan(&bytes).unwrap(),
            NodeLayout::Leaf {
                partial: PathLayout { bytes: range(1, 2), offset: 0 },
                value: range(2 + prefix.len(), 2 + prefix.len() + len),
            }
        );
    }
}

#[test]
fn extension_with_hash_child() {
    let hash = [0x77u8; 32];
    let bytes = ReferenceNodeCodec::extension_node(&[0x0a, 0xbc], 3, ChildRef::Hash(hash));
    let mut expected = vec![0x83, 0x0a, 0xbc, 0x80];
    expected.extend_from_slice(&hash);
    assert_eq!(bytes, expected);
    assert_eq!(
        ReferenceNodeCodec::decode_plan(&bytes).unwrap(),
        NodeLayout::Extension {
            partial: PathLayout { bytes: range(1, 3), offset: 1 },
            child: HandleLayout::Hash(range(4, 36)),
        }
    );
}

#[test]
fn extension_with_inline_child() {
    let bytes = ReferenceNodeCodec::extension_node(&[0xab], 2, inline_child(&[1, 2, 3]));
    assert_eq!(bytes, vec![0x82, 0xab, 0x0c, 1, 2, 3]);
    assert_eq!(
        ReferenceNodeCodec::decode_plan(&bytes).unwrap(),
        NodeLayout::Extension {
            partial: PathLayout { bytes: range(1, 2), offset: 0 },
            child: HandleLayout::Inline(range(3, 6)),
        }
    );
    let longest = ReferenceNodeCodec::extension_node(&[0x22; 63], 125, inline_child(&[]));
    assert_eq!(longest[0], 0xfd);
}

#[test]
fn branch_without_value() {
    let mut children: Vec<Option<ChildRef>> = vec![None; 16];
    children[0] = Some(inline_child(&[0xaa]));
    children[9] = Some(ChildRef::Hash([0x55; 32]));
    children[15] = Some(inline_child(&[]));
    let bytes = ReferenceNodeCodec::branch_node(&children, None);
    let mut expected = vec![0xfe, 0x01, 0x82, 0x04, 0xaa, 0x80];
    expected.extend_from_slice(&[0x55; 32]);
    expected.push(0x00);
    assert_eq!(bytes, expected);
    let mut places: Vec<Option<HandleLayout>> = vec![None; 16];
    places[0] = Some(HandleLayout::Inline(range(4, 5)));
    places[9] = Some(HandleLayout::Hash(range(6, 38)));
    places[15] = Some(HandleLayout::Inline(range(39, 39)));
    assert_eq!(
        ReferenceNodeCodec::decode_plan(&bytes).unwrap(),
        NodeLayout::Branch { value: None, children: places }
    );
}

#[test]
fn branch_with_value() {
    let mut children: Vec<Option<ChildRef>> = vec![None; 16];
    children[4] = Some(inline_child(&[0xbb, 0xcc]));
    let bytes = ReferenceNodeCodec::branch_node(&children, Some(b"val"));
    assert_eq!(bytes, vec![0xff, 0x10, 0x00, 0x0c, b'v', b'a', b'l', 0x08, 0xbb, 0xcc]);
    let mut places: Vec<Option<HandleLayout>> = vec![None; 16];
    places[4] = Some(HandleLayout::Inline(range(8, 10)));
    assert_eq!(
        ReferenceNodeCodec::decode_plan(&bytes).unwrap(),
        NodeLayout::Branch { value: Some(range(4, 7)), children: places }
    );
}

#[test]
fn branch_without_children() {
    let children: Vec<Option<ChildRef>> = vec![None; 16];
    assert_eq!(ReferenceNodeCodec::branch_node(&children, None), vec![0xfe, 0x00, 0x00]);
    assert_eq!(
        ReferenceNodeCodec::decode_plan(&[0xfe, 0x00, 0x00]).unwrap(),
        NodeLayout::Branch { value: None, children: vec![None; 16] }
    );
    let all: Vec<Option<ChildRef>> = vec![Some(inline_child(&[])); 16];
    let bytes = ReferenceNodeCodec::branch_node(&all, None);
    assert_eq!(&bytes[..3], &[0xfe, 0xff, 0xff]);
    assert_eq!(bytes.len(), 3 + 16);
}

#[test]
fn decode_fails_where_the_input_ends() {
    for input in [
        vec![],
        vec![0x05],
        vec![0x05, 0x12],
        vec![0x83, 0x0a],
        vec![0xfe],
        vec![0xfe, 0x01],
        vec![0xff, 0x00],
        vec![0x05, 0x12, 0x34, 0x0c, b'a', b'b'],
        vec![0xfe, 0x01, 0x00, 0x08, 0xaa],
        vec![0xff, 0x00, 0x00, 0x0c, b'v'],
    ] {
        assert_eq!(ReferenceNodeCodec::decode_plan(&input), Err(CodecError::OutOfData), "{:?}", input);
    }
}

#[test]
fn decode_fails_on_a_bad_length_prefix() {
    for input in [
        // No prefix at all.
        vec![0x05, 0x12, 0x34],
        vec![0xfe, 0x01, 0x00],
        vec![0xff, 0x00, 0x00],
        // A prefix that is cut off.
        vec![0x03, 0xab, 0x01],
        vec![0x03, 0xab, 0x02, 0x00],
        // A prefix that is wider than its number needs.
        vec![0x03, 0xab, 0x01, 0x00, 0x00],
        vec![0x03, 0xab, 0x02, 0x00, 0x00, 0x00],
        vec![0x03, 0xab, 0x03, 0x01, 0x00, 0x00, 0x00, 0x00],
        // A prefix of more than 32 bits.
        vec![0x03, 0xab, 0x07, 0x00, 0x00, 0x00, 0x00, 0x01],
    ] {
        assert_eq!(ReferenceNodeCodec::decode_plan(&input), Err(CodecError::BadLength), "{:?}", input);
    }
}

#[test]
fn header_bytes() {
    for (header, byte) in [
        (NodeHeader::Null, 0x00u8),
        (NodeHeader::Leaf(0), 0x01),
        (NodeHeader::Leaf(126), 0x7f),
        (NodeHeader::Extension(0), 0x80),
        (NodeHeader::Extension(125), 0xfd),
        (NodeHeader::Branch(false), 0xfe),
        (NodeHeader::Branch(true), 0xff),
    ] {
        let mut out = vec![0xee];
        header.encode_to(&mut out);
        assert_eq!(out, vec![0xee, byte]);
        let data = [byte];
        let mut input = ByteSliceInput::new(&data);
        assert_eq!(NodeHeader::decode(&mut input), Ok(header));
        assert_eq!(NodeHeader::decode(&mut input), Err(CodecError::OutOfData));
    }
}

#[test]
fn cursor_takes_ranges_in_order() {
    let data = [10u8, 11, 12, 13, 14];
    let mut input = ByteSliceInput::new(&data);
    assert_eq!(input.remaining_len(), Ok(Some(5)));
    assert_eq!(input.take(2), Ok(range(0, 2)));
    assert_eq!(input.read_byte(), Ok(12));
    assert_eq!(input.take(3), Err(CodecError::OutOfData));
    assert_eq!(input.take(usize::MAX), Err(CodecError::OutOfData));
    assert_eq!(input.remaining_len(), Ok(Some(2)));
    let mut into = vec![0u8; 2];
    assert_eq!(input.read(&mut into), Ok(()));
    assert_eq!(into, vec![13, 14]);
    assert_eq!(input.read_byte(), Err(CodecError::OutOfData));
    assert_eq!(input.take(0), Ok(range(5, 5)));
    let mut too_many = vec![0u8; 1];
    assert_eq!(input.read(&mut too_many), Err(CodecError::OutOfData));
    assert_eq!(too_many, vec![0]);
}

#[test]
fn cursor_takes_length_prefixed_fields() {
    let data = [0xee, 0x0c, 1, 2, 3, 0x00, 0x08, 9];
    let mut input = ByteSliceInput::new(&data);
    input.take(1).unwrap();
    assert_eq!(input.take_length_prefixed(), Ok(range(2, 5)));
    assert_eq!(input.take_length_prefixed(), Ok(range(6, 6)));
    assert_eq!(input.take_length_prefixed(), Err(CodecError::OutOfData));
}

#[test]
fn bitmap_bits() {
    let mut flags = [false; 16];
    flags[0] = true;
    flags[3] = true;
    flags[8] = true;
    flags[15] = true;
    assert_eq!(Bitmap::encode(&flags), [0x09, 0x81]);
    let bitmap = Bitmap::decode(&[0x09, 0x81, 0xff]).unwrap();
    for i in 0..16 {
        assert_eq!(bitmap.value_at(i), flags[i], "bit {}", i);
    }
    assert_eq!(Bitmap::decode(&[0x09]), Err(CodecError::OutOfData));
    assert_eq!(Bitmap::encode(&[]), [0, 0]);
    assert_eq!(Bitmap::encode(&[true; 20]), [0xff, 0xff]);
    let mut late = [false; 18];
    late[17] = true;
    assert_eq!(Bitmap::encode(&late), [0, 0]);
}

#[test]
fn branch_header_and_bitmap_go_into_the_first_three_bytes() {
    let mut output = vec![1, 2, 3, 4, 5];
    branch_node_buffered(true, &[false, true], &mut output);
    assert_eq!(output, vec![0xff, 0x02, 0x00, 4, 5]);
    branch_node_buffered(false, &[], &mut output);
    assert_eq!(output, vec![0xfe, 0x00, 0x00, 4, 5]);
}
