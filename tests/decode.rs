use tiger_parse::bulk::read_scalars;
use tiger_parse::cursor::Cursor;
use tiger_parse::enums::variant_index;
use tiger_parse::error::IoError;
use tiger_parse::flags::read_flags_u32;
use tiger_parse::record::{read_field, read_field_at};
use tiger_parse::store::{check_entry, TagEntry};
use tiger_parse::vector::read_vec_endian;
use tiger_parse::{
    Descriptor, Endian, Error, FieldRecord, FieldRecordStack, NullString, Padding, Pointer,
    PointerOptional, ResourcePointer, ResourcePointerWithClass, ResultExt, TagHash,
    TigerReadable,
};

#[test]
fn test_array() -> Result<(), Error> {
    const DATA: &[u8] = &[
        2, 0, 0, 0, 239, 190, 173, 222, 0, 1, 2, 3, 4, 5, 6, 7, 1_0, 1_2, 1_3,
    ];
    let mut cursor = Cursor::new(DATA.to_vec());

    assert_eq!(<[u32; 2]>::read_ds(&mut cursor)?, [2, 0xDEADBEEF]);
    assert_eq!(<[u8; 8]>::read_ds(&mut cursor)?, [0, 1, 2, 3, 4, 5, 6, 7]);
    assert_eq!(<[u8; 3]>::read_ds(&mut cursor)?, [1_0, 1_2, 1_3]);

    Ok(())
}

#[test]
fn test_bitflags() {
    const FLAG_A: u32 = 0x1;
    const FLAG_B: u32 = 0x2;
    const FLAG_C: u32 = 0x4;
    const DATA: &[u8] = &[0x5, 0, 0xFF, 1];
    let mut cursor = Cursor::new(DATA.to_vec());
    let flags = read_flags_u32(&mut cursor, Endian::Little, FLAG_A | FLAG_B | FLAG_C).unwrap();
    assert!(flags & FLAG_A == FLAG_A);
    assert!(flags & FLAG_C == FLAG_C);
}

#[test]
fn test_pointer() {
    let data: [u8; 0x28] = [
        0x20, 0x00, 0x00, 0x00, 0x00, 0x00, 0x00, 0x00, 0xFF, 0xFF, 0xFF, 0xFF, 0xFF, 0xFF,
        0xFF, 0xFF, 0xFF, 0xFF, 0xFF, 0xFF, 0xFF, 0xFF, 0xFF, 0xFF, 0xFF, 0xFF, 0xFF, 0xFF,
        0xFF, 0xFF, 0xFF, 0xFF, 0xEF, 0xBE, 0xDA, 0xED, 0xFE, 0x00, 0x00, 0x00,
    ];

    let mut cursor = Cursor::new(data.to_vec());
    let ptr: Pointer<u64> = TigerReadable::read_ds_endian(&mut cursor, Endian::Little).unwrap();

    println!("{:X}", ptr.0);
    assert_eq!(ptr.0, 0xfeed_da_beef)
}

#[test]
fn test_backwards_pointer() {
    let data: [u8; 0x28] = [
        0xef, 0xbe, 0xda, 0xed, 0xfe, 0x00, 0x00, 0x00, 0xff, 0xff, 0xff, 0xff, 0xff, 0xff,
        0xff, 0xff, 0xff, 0xff, 0xff, 0xff, 0xff, 0xff, 0xff, 0xff, 0xff, 0xff, 0xff, 0xff,
        0xff, 0xff, 0xff, 0xff, 0xe0, 0xff, 0xff, 0xff, 0xff, 0xff, 0xff, 0xff,
    ];

    let mut cursor = Cursor::new(data.to_vec());
    cursor.set_position(0x20);
    let ptr: Pointer<u64> = TigerReadable::read_ds_endian(&mut cursor, Endian::Little).unwrap();

    println!("{:X}", ptr.0);
    assert_eq!(ptr.0, 0xfeed_da_beef)
}

#[test]
fn pointer_position_restored_forward_and_backward() {
    let mut forward = vec![0u8; 0x28];
    forward[0] = 0x20;
    forward[0x20..0x24].copy_from_slice(&7u32.to_le_bytes());
    let mut cursor = Cursor::new(forward);
    let ptr: Pointer<u32> = Pointer::read_ds_endian(&mut cursor, Endian::Little).unwrap();
    assert_eq!(ptr.0, 7);
    assert_eq!(ptr.offset(), 0x20);
    assert_eq!(cursor.position(), 8);

    let mut backward = vec![0u8; 0x28];
    backward[0..4].copy_from_slice(&9u32.to_le_bytes());
    backward[0x20..0x28].copy_from_slice(&(-0x20i64).to_le_bytes());
    let mut cursor = Cursor::new(backward);
    cursor.set_position(0x20);
    let ptr: Pointer<u32> = Pointer::read_ds_endian(&mut cursor, Endian::Little).unwrap();
    assert_eq!(ptr.0, 9);
    assert_eq!(ptr.offset(), 0);
    assert_eq!(cursor.position(), 0x28);
}

#[test]
fn pointer_before_stream_start_is_io_error() {
    let mut cursor = Cursor::new((-1i64).to_le_bytes().to_vec());
    let r = Pointer::<u8>::read_ds_endian(&mut cursor, Endian::Little);
    assert!(matches!(r, Err(Error::Io(IoError::InvalidSeek { target: -1 }))));
}

#[test]
fn optional_pointer_zero_offset_is_absent() {
    let mut cursor = Cursor::new(vec![0u8; 8]);
    let ptr: PointerOptional<u32> =
        PointerOptional::read_ds_endian(&mut cursor, Endian::Little).unwrap();
    assert!(ptr.0.is_none());
    assert_eq!(ptr.offset(), None);
    assert_eq!(ptr.1, 0);
    assert_eq!(cursor.position(), 8);
}

#[test]
fn optional_pointer_present_keeps_field_position() {
    let mut data = vec![0u8; 0x18];
    data[8..16].copy_from_slice(&8i64.to_le_bytes());
    data[16..18].copy_from_slice(&0x1234u16.to_le_bytes());
    let mut cursor = Cursor::new(data);
    cursor.set_position(8);
    let ptr: PointerOptional<u16> =
        PointerOptional::read_ds_endian(&mut cursor, Endian::Little).unwrap();
    assert_eq!(ptr.0, Some(0x1234));
    assert_eq!(ptr.offset(), Some(8));
    assert_eq!(cursor.position(), 16);
}

fn array_block(count: i64, header: i64, values: &[u32]) -> Vec<u8> {
    let mut data = Vec::new();
    data.extend_from_slice(&count.to_le_bytes());
    data.extend_from_slice(&8i64.to_le_bytes());
    data.extend_from_slice(&header.to_le_bytes());
    data.extend_from_slice(&[0u8; 8]);
    for v in values {
        data.extend_from_slice(&v.to_le_bytes());
    }
    data
}

#[test]
fn dynamic_array_decodes_out_of_line_elements() {
    let mut cursor = Cursor::new(array_block(2, 2, &[7, 9]));
    let v: Vec<u32> = Vec::read_ds_endian(&mut cursor, Endian::Little).unwrap();
    assert_eq!(v, vec![7, 9]);
    assert_eq!(cursor.position(), 16);
}

#[test]
fn dynamic_array_empty_does_not_follow_offset() {
    let mut data = Vec::new();
    data.extend_from_slice(&0i64.to_le_bytes());
    data.extend_from_slice(&0x7000i64.to_le_bytes());
    let mut cursor = Cursor::new(data);
    let v: Vec<u32> = Vec::read_ds_endian(&mut cursor, Endian::Little).unwrap();
    assert!(v.is_empty());
    assert_eq!(cursor.position(), 16);
}

#[test]
fn dynamic_array_count_mismatch_is_invalid_structure() {
    let mut cursor = Cursor::new(array_block(2, 3, &[7, 9, 11]));
    let r: Result<Vec<u32>, Error> = Vec::read_ds_endian(&mut cursor, Endian::Little);
    match r {
        Err(Error::InvalidStructure { count, header, pointer, position }) => {
            assert_eq!(count, 2);
            assert_eq!(header, 3);
            assert_eq!(pointer, 16);
            assert_eq!(position, 16);
        }
        other => panic!("unexpected result {:?}", other),
    }
}

#[test]
fn dynamic_array_short_payload_is_io_error() {
    let mut cursor = Cursor::new(array_block(3, 3, &[7, 9]));
    let r: Result<Vec<u32>, Error> = read_vec_endian(&mut cursor, Endian::Little, true);
    match r {
        Err(Error::PropagatedError { stack, error }) => {
            assert!(matches!(stack.records().as_slice(), [FieldRecord::Element { index: 2 }]));
            assert!(matches!(
                *error,
                Error::Io(IoError::UnexpectedEof { position: 40, wanted: 4 })
            ));
        }
        other => panic!("unexpected result {:?}", other),
    }
}

#[test]
fn padding_zero_and_non_zero() {
    let mut cursor = Cursor::new(vec![0, 0, 0, 0]);
    assert!(Padding::<4>::read_ds_endian(&mut cursor, Endian::Little).is_ok());
    assert_eq!(cursor.position(), 4);

    let mut cursor = Cursor::new(vec![1, 0, 0, 0]);
    match Padding::<4>::read_ds_endian(&mut cursor, Endian::Little) {
        Err(Error::PaddingNotZero(bytes)) => assert_eq!(bytes, vec![1, 0, 0, 0]),
        other => panic!("unexpected result {:?}", other),
    }
}

#[test]
fn decode_u32_pair_little_endian() {
    let mut cursor = Cursor::new(vec![0x02, 0x00, 0x00, 0x00, 0xEF, 0xBE, 0xAD, 0xDE]);
    let v = <[u32; 2]>::read_ds_endian(&mut cursor, Endian::Little).unwrap();
    assert_eq!(v, [2, 0xDEADBEEF]);
}

#[test]
fn scalars_big_endian_and_signed() {
    let mut cursor = Cursor::new(vec![0xDE, 0xAD, 0xBE, 0xEF, 0xFE, 0xFF, 0x02]);
    assert_eq!(u32::read_ds_endian(&mut cursor, Endian::Big).unwrap(), 0xDEADBEEF);
    assert_eq!(i16::read_ds_endian(&mut cursor, Endian::Little).unwrap(), -2);
    assert!(bool::read_ds_endian(&mut cursor, Endian::Little).unwrap());
    assert!(matches!(u8::read_ds(&mut cursor), Err(Error::Io(IoError::UnexpectedEof { .. }))));
}

#[test]
fn wide_scalars() {
    let bytes: Vec<u8> = (1..=16).collect();
    let mut cursor = Cursor::new(bytes.clone());
    let le = u128::read_ds_endian(&mut cursor, Endian::Little).unwrap();
    assert_eq!(le, u128::from_le_bytes(bytes.clone().try_into().unwrap()));
    let mut cursor = Cursor::new(bytes.clone());
    let be = i128::read_ds_endian(&mut cursor, Endian::Big).unwrap();
    assert_eq!(be, i128::from_be_bytes(bytes.try_into().unwrap()));
}

#[test]
fn block_read_matches_one_by_one() {
    let bytes: Vec<u8> = vec![1, 0, 2, 0, 3, 0, 0xFF, 0xFF];
    let mut a = Cursor::new(bytes.clone());
    let block = read_scalars::<u16>(&mut a, Endian::Little, 4).unwrap();
    let mut b = Cursor::new(bytes.clone());
    let one_by_one = <[u16; 4]>::read_ds_endian(&mut b, Endian::Little).unwrap();
    assert_eq!(block, one_by_one.to_vec());
    assert_eq!(block, vec![1, 2, 3, 0xFFFF]);
    assert_eq!(a.position(), b.position());

    let mut c = Cursor::new(bytes);
    let big = read_scalars::<u16>(&mut c, Endian::Big, 4).unwrap();
    assert_eq!(big, vec![0x0100, 0x0200, 0x0300, 0xFFFF]);

    let mut d = Cursor::new(vec![1, 2, 3]);
    assert!(read_scalars::<u16>(&mut d, Endian::Little, 2).is_err());
}

#[test]
fn null_string_stops_at_zero() {
    let mut cursor = Cursor::new(b"abc\0def".to_vec());
    let s = NullString::read_ds_endian(&mut cursor, Endian::Little).unwrap();
    assert_eq!(s.0, "abc");
    assert_eq!(cursor.position(), 4);
}

#[test]
fn null_string_without_zero_is_too_long() {
    let mut cursor = Cursor::new(vec![b'x'; 10240]);
    assert!(matches!(
        NullString::read_ds_endian(&mut cursor, Endian::Little),
        Err(Error::StringTooLong)
    ));

    let mut cursor = Cursor::new(b"abc".to_vec());
    assert!(matches!(
        NullString::read_ds_endian(&mut cursor, Endian::Little),
        Err(Error::Io(_))
    ));
}

#[test]
fn null_string_bytes_are_code_points() {
    let mut cursor = Cursor::new(vec![0xE9, 0x41, 0]);
    let s = NullString::read_ds_endian(&mut cursor, Endian::Little).unwrap();
    assert_eq!(s.0, "\u{e9}A");
}

#[test]
fn resource_pointer_reads_type_tag_before_target() {
    let mut data = vec![0u8; 0x20];
    data[0..8].copy_from_slice(&0x14i64.to_le_bytes());
    data[0x10..0x14].copy_from_slice(&0x8080_1234u32.to_le_bytes());
    let mut cursor = Cursor::new(data);
    let p = ResourcePointer::read_ds_endian(&mut cursor, Endian::Little).unwrap();
    assert!(p.is_valid);
    assert_eq!(p.offset, 0x14);
    assert_eq!(p.resource_type, 0x8080_1234);
    assert_eq!(cursor.position(), 8);
}

#[test]
fn resource_pointer_sentinels_are_invalid() {
    for sentinel in [0i64, i64::MAX] {
        let mut cursor = Cursor::new(sentinel.to_le_bytes().to_vec());
        let p = ResourcePointer::read_ds_endian(&mut cursor, Endian::Little).unwrap();
        assert!(!p.is_valid);
        assert_eq!(p.offset, 0);
        assert_eq!(p.resource_type, u32::MAX);
    }
}

#[test]
fn resource_pointer_with_class_reads_three_tags() {
    let mut data = vec![0u8; 0x30];
    data[0..8].copy_from_slice(&0x14i64.to_le_bytes());
    data[0x10..0x14].copy_from_slice(&0xAAu32.to_le_bytes());
    data[0x14..0x18].copy_from_slice(&0x8090_0001u32.to_le_bytes());
    data[0x18..0x1C].copy_from_slice(&0xCCu32.to_le_bytes());
    let mut cursor = Cursor::new(data);
    let p = ResourcePointerWithClass::read_ds_endian(&mut cursor, Endian::Little).unwrap();
    assert!(p.is_valid);
    assert_eq!(p.resource_type, 0xAA);
    assert_eq!(p.parent_tag, TagHash(0x8090_0001));
    assert_eq!(p.class_type, 0xCC);
    assert_eq!(p.offset, 0x1C);
    assert_eq!(cursor.position(), 8);

    let mut cursor = Cursor::new(0i64.to_le_bytes().to_vec());
    let p = ResourcePointerWithClass::read_ds_endian(&mut cursor, Endian::Little).unwrap();
    assert!(!p.is_valid);
    assert_eq!(p.parent_tag, TagHash::none());
}

#[test]
fn failing_element_records_its_index() {
    let mut cursor = Cursor::new(vec![1, 0, 0, 0, 2, 0]);
    match <[u32; 2]>::read_ds_endian(&mut cursor, Endian::Little) {
        Err(Error::PropagatedError { stack, error }) => {
            assert!(matches!(stack.records().as_slice(), [FieldRecord::Element { index: 1 }]));
            assert!(matches!(*error, Error::Io(_)));
        }
        other => panic!("unexpected result {:?}", other),
    }
}

#[test]
fn field_frames_are_prepended() {
    let inner: Result<u8, Error> = Err(Error::PointerNull);
    let r = inner.with_array_element(3).with_field("Outer", "items");
    match r {
        Err(Error::PropagatedError { stack, error }) => {
            let records = stack.records();
            assert_eq!(records.len(), 2);
            match &records[0] {
                FieldRecord::Field { typename, field } => {
                    assert_eq!(typename, "Outer");
                    assert_eq!(field, "items");
                }
                other => panic!("unexpected frame {:?}", other),
            }
            assert!(matches!(records[1], FieldRecord::Element { index: 3 }));
            assert!(matches!(*error, Error::PointerNull));
        }
        other => panic!("unexpected result {:?}", other),
    }

    let ok: Result<u8, Error> = Ok(5);
    assert_eq!(ok.with_field("T", "f").unwrap(), 5);
}

#[test]
fn push_front_puts_record_first() {
    let mut stack = FieldRecordStack::new();
    stack.push_front(FieldRecord::Element { index: 1 });
    stack.push_front(FieldRecord::Element { index: 2 });
    assert!(matches!(
        stack.records().as_slice(),
        [FieldRecord::Element { index: 2 }, FieldRecord::Element { index: 1 }]
    ));
}

#[test]
fn tuples_decode_in_order() {
    let mut cursor = Cursor::new(vec![7, 0x34, 0x12, 0xFF]);
    let (a, b, c) = <(u8, u16, i8)>::read_ds_endian(&mut cursor, Endian::Little).unwrap();
    assert_eq!((a, b, c), (7, 0x1234, -1));
    assert_eq!(cursor.position(), 4);
}

#[test]
fn descriptors() {
    assert_eq!(<[u32; 4]>::descriptor().size, 16);
    assert!(<[u32; 4]>::descriptor().is_zero_copy);
    assert_eq!(<Vec<u8>>::descriptor().size, 16);
    assert!(!<Vec<u8>>::descriptor().is_zero_copy);
    assert_eq!(<(u8, u32)>::descriptor().size, 5);
    assert_eq!(<Pointer<u8>>::descriptor().size, 8);
    assert_eq!(<Padding<12>>::descriptor().size, 12);
    assert_eq!(<[u64; 3]>::descriptor().size, 24);
}

#[test]
fn store_entry_check() {
    let entry = TagEntry { reference: 0x8080_1111, file_type: 8, file_subtype: 0 };
    let matching = Descriptor { is_zero_copy: false, size: 4, id: Some(0x8080_1111), etype: None };
    assert!(check_entry(&matching, &entry).is_ok());
    let any = Descriptor { is_zero_copy: false, size: 4, id: Some(u32::MAX), etype: None };
    assert!(check_entry(&any, &entry).is_ok());
    let other = Descriptor { is_zero_copy: false, size: 4, id: Some(0x8080_2222), etype: None };
    assert!(matches!(
        check_entry(&other, &entry),
        Err(Error::TypeMismatch { expected: 0x8080_2222, found: 0x8080_1111 })
    ));
    let file = Descriptor { is_zero_copy: false, size: 4, id: None, etype: Some((26, None)) };
    assert!(matches!(
        check_entry(&file, &entry),
        Err(Error::TypeMismatch { expected: 26, found: 8 })
    ));
}

#[test]
fn field_path_rendering() {
    let mut stack = FieldRecordStack::new();
    stack.push_front(FieldRecord::Field {
        typename: "Item".to_string(),
        field: "name".to_string(),
    });
    stack.push_front(FieldRecord::Element { index: 3 });
    stack.push_front(FieldRecord::Field {
        typename: "User".to_string(),
        field: "items".to_string(),
    });
    assert_eq!(stack.render(), "{User.items[3] -> Item.name}");
    assert_eq!(FieldRecordStack::new().render(), "{}");
    assert_eq!(FieldRecord::Element { index: 1234 }.render(), "[1234]");
    assert_eq!(FieldRecord::Element { index: 0 }.render(), "[0]");
}

#[test]
fn enumeration_values() {
    let discriminants = vec![0i128, 5, -1, 5];
    assert_eq!(variant_index(5, &discriminants).unwrap(), 1);
    assert_eq!(variant_index(-1, &discriminants).unwrap(), 2);
    assert!(matches!(variant_index(7, &discriminants), Err(Error::EnumVariantOutOfRange(7))));
}

#[test]
fn record_fields_annotate_failures() {
    let mut cursor = Cursor::new(vec![1, 0, 0, 0, 0xAA, 0xBB]);
    let a: u32 = read_field(&mut cursor, Endian::Little, "Header", "magic").unwrap();
    assert_eq!(a, 1);
    match read_field::<u32>(&mut cursor, Endian::Little, "Header", "size") {
        Err(Error::PropagatedError { stack, error }) => {
            assert_eq!(stack.render(), "{Header.size}");
            assert!(matches!(*error, Error::Io(_)));
        }
        other => panic!("unexpected result {:?}", other),
    }

    let mut cursor = Cursor::new(vec![0, 0, 0, 0, 0x34, 0x12]);
    let b: u16 = read_field_at(&mut cursor, Endian::Little, 0, 4, "Header", "flags").unwrap();
    assert_eq!(b, 0x1234);
    assert_eq!(cursor.position(), 6);
}

#[test]
fn annotation_keeps_inner_error() {
    let inner: Result<u8, Error> =
        Err(Error::Io(IoError::UnexpectedEof { position: 17, wanted: 4 }));
    match inner.with_array_element(2).with_field("Mesh", "parts") {
        Err(Error::PropagatedError { stack, error }) => {
            assert_eq!(stack.render(), "{Mesh.parts[2]}");
            assert!(matches!(
                *error,
                Error::Io(IoError::UnexpectedEof { position: 17, wanted: 4 })
            ));
        }
        other => panic!("unexpected result {:?}", other),
    }
}

#[test]
fn too_long_string_consumes_the_cap() {
    let mut cursor = Cursor::new(vec![b'x'; 20000]);
    assert!(matches!(
        NullString::read_ds_endian(&mut cursor, Endian::Little),
        Err(Error::StringTooLong)
    ));
    assert_eq!(cursor.position(), 10240);
}
