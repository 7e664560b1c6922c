use tiger_parse::cursor::Cursor;
use tiger_parse::tag::Tagged;
use tiger_parse::variant::{resolve_variant, Resolved, Variant2};
use tiger_parse::vector::read_vec_endian;
use tiger_parse::{Endian, Error, OptionalVariantPointer, TigerReadable, VariantEnum, VariantPointer};

type Circle = Tagged<u32, 0x100>;
type Square = Tagged<u16, 0x200>;
type Shape = Variant2<Circle, Square, true>;
type Strict = Variant2<Circle, Square, false>;

#[test]
fn dispatcher_resolves_registered_tag() {
    let classes = vec![0x100, 0x200, 0x200];
    let r = resolve_variant(&classes, false, 0x200, 0, "Shape".to_string()).unwrap();
    assert_eq!(r, Resolved::Known(1));
}

#[test]
fn dispatcher_unregistered_tag_with_fallback_is_unknown() {
    let classes = vec![0x100, 0x200];
    let r = resolve_variant(&classes, true, 0x999, 0x40, "Shape".to_string()).unwrap();
    assert_eq!(r, Resolved::Unknown { class: 0x999, offset: 0x40 });
}

#[test]
fn dispatcher_unregistered_tag_without_fallback_is_missing_variant() {
    let classes = vec![0x100, 0x200];
    match resolve_variant(&classes, false, 0x999, 0x40, "Shape".to_string()) {
        Err(Error::MissingVariantType { class, typename }) => {
            assert_eq!(class, 0x999);
            assert_eq!(typename, "Shape");
        }
        other => panic!("unexpected result {:?}", other),
    }
}

#[test]
fn registered_class_decodes_its_record() {
    let mut cursor = Cursor::new(vec![0x34, 0x12]);
    let v = Shape::read_variant_endian(&mut cursor, Endian::Little, 0x200).unwrap();
    match v {
        Variant2::Second(b) => assert_eq!(b.0, 0x1234),
        other => panic!("unexpected result {:?}", other),
    }
    assert_eq!(cursor.position(), 2);
}

#[test]
fn unregistered_class_with_fallback_is_unknown() {
    let mut cursor = Cursor::new(vec![0u8; 8]);
    cursor.set_position(5);
    let v = Shape::read_variant_endian(&mut cursor, Endian::Little, 0x999).unwrap();
    assert!(matches!(v, Variant2::Unknown { class: 0x999, offset: 5 }));
    assert_eq!(cursor.position(), 5);
}

#[test]
fn unregistered_class_without_fallback_is_missing_variant() {
    let mut cursor = Cursor::new(vec![0u8; 8]);
    match Strict::read_variant_endian(&mut cursor, Endian::Little, 0x999) {
        Err(Error::MissingVariantType { class, typename }) => {
            assert_eq!(class, 0x999);
            assert_eq!(typename, "Variant2");
        }
        other => panic!("unexpected result {:?}", other),
    }
}

fn variant_block(class: u32, payload: &[u8]) -> Vec<u8> {
    let mut data = vec![0u8; 0x24];
    data[0..8].copy_from_slice(&0x14i64.to_le_bytes());
    data[0x10..0x14].copy_from_slice(&class.to_le_bytes());
    data.extend_from_slice(payload);
    data
}

#[test]
fn variant_pointer_reads_class_and_payload() {
    let mut cursor = Cursor::new(variant_block(0x100, &[1, 0, 0, 0]));
    let p = OptionalVariantPointer::<Shape>::read_ds_endian(&mut cursor, Endian::Little).unwrap();
    match p.0 {
        Some(Variant2::First(a)) => assert_eq!(a.0, 1),
        other => panic!("unexpected result {:?}", other),
    }
    assert_eq!(cursor.position(), 8);
}

#[test]
fn variant_pointer_unknown_carries_payload_offset() {
    let mut cursor = Cursor::new(variant_block(0x777, &[]));
    let p = OptionalVariantPointer::<Shape>::read_ds_endian(&mut cursor, Endian::Little).unwrap();
    assert!(matches!(p.0, Some(Variant2::Unknown { class: 0x777, offset: 0x24 })));
}

#[test]
fn null_variant_pointer() {
    let mut cursor = Cursor::new(0i64.to_le_bytes().to_vec());
    let p = OptionalVariantPointer::<Shape>::read_ds_endian(&mut cursor, Endian::Little).unwrap();
    assert!(p.0.is_none());

    let mut cursor = Cursor::new(i64::MAX.to_le_bytes().to_vec());
    let r = VariantPointer::<Shape>::read_ds_endian(&mut cursor, Endian::Little);
    assert!(matches!(r, Err(Error::PointerNull)));
}

#[test]
fn variant_pointer_missing_class() {
    let mut cursor = Cursor::new(variant_block(0x1, &[]));
    let r = VariantPointer::<Strict>::read_ds_endian(&mut cursor, Endian::Little);
    assert!(matches!(r, Err(Error::MissingVariantType { class: 0x1, .. })));
}

fn tagged_array(tag: u32) -> Vec<u8> {
    let mut data = Vec::new();
    data.extend_from_slice(&1i64.to_le_bytes());
    data.extend_from_slice(&8i64.to_le_bytes());
    data.extend_from_slice(&1i64.to_le_bytes());
    data.extend_from_slice(&tag.to_le_bytes());
    data.extend_from_slice(&[0u8; 4]);
    data.extend_from_slice(&5u32.to_le_bytes());
    data
}

#[test]
fn array_element_tag_checked() {
    let mut cursor = Cursor::new(tagged_array(0x100));
    let v: Vec<Circle> = read_vec_endian(&mut cursor, Endian::Little, true).unwrap();
    assert_eq!(v.len(), 1);
    assert_eq!(v[0].0, 5);

    let mut cursor = Cursor::new(tagged_array(0x555));
    let r: Result<Vec<Circle>, Error> = read_vec_endian(&mut cursor, Endian::Little, true);
    assert!(matches!(r, Err(Error::TypeMismatch { expected: 0x100, found: 0x555 })));

    let mut cursor = Cursor::new(tagged_array(0x555));
    let v: Vec<Circle> = read_vec_endian(&mut cursor, Endian::Little, false).unwrap();
    assert_eq!(v[0].0, 5);

    let mut cursor = Cursor::new(tagged_array(0x555));
    let v: Vec<Tagged<u32, 0xFFFF_FFFF>> = read_vec_endian(&mut cursor, Endian::Little, true).unwrap();
    assert_eq!(v[0].0, 5);
}
