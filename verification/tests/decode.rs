use jcdump::attribute::{interpret, parse_attribute_info};
use jcdump::raw;
use jcdump::raw::{ConstantKind, ExpectedKind, ParseError};
use jcdump::resolve::{parse_cp_info, resolve_class, resolve_index, resolve_utf8};
use jcdump::{
    decode, parse_raw, wrap, AttributeInfo, BootstrapMethod, ClassAccessFlags, ClassFileVersion,
    ConstantValueAttribute, CpInfo, FieldAccessFlags, InnerClass, InnerClassAccessFlags, Magic,
    MethodAccessFlags, ReferenceKind,
};

fn u2(out: &mut Vec<u8>, v: u16) {
    out.extend_from_slice(&v.to_be_bytes());
}

fn u4(out: &mut Vec<u8>, v: u32) {
    out.extend_from_slice(&v.to_be_bytes());
}

fn utf8(out: &mut Vec<u8>, s: &str) {
    out.push(1);
    u2(out, s.len() as u16);
    out.extend_from_slice(s.as_bytes());
}

fn class_entry(out: &mut Vec<u8>, name_index: u16) {
    out.push(7);
    u2(out, name_index);
}

fn attribute(out: &mut Vec<u8>, name_index: u16, payload: &[u8]) {
    u2(out, name_index);
    u4(out, payload.len() as u32);
    out.extend_from_slice(payload);
}

/// A class file with the given pool bytes (`count` slots), no interfaces,
/// fields or methods, and the given attributes. Slot 2 is this class.
fn class_bytes(count: u16, pool: &[u8], attribute_count: u16, attributes: &[u8]) -> Vec<u8> {
    let mut out = vec![0xCA, 0xFE, 0xBA, 0xBE];
    u2(&mut out, 3);
    u2(&mut out, 52);
    u2(&mut out, count);
    out.extend_from_slice(pool);
    u2(&mut out, 0x0021);
    u2(&mut out, 2);
    u2(&mut out, 0);
    u2(&mut out, 0);
    u2(&mut out, 0);
    u2(&mut out, 0);
    u2(&mut out, attribute_count);
    out.extend_from_slice(attributes);
    out
}

/// Slots 1 to 4: "Main", class Main, `attribute_name`, "Main.java".
fn small_pool(attribute_name: &str) -> Vec<u8> {
    let mut pool = Vec::new();
    utf8(&mut pool, "Main");
    class_entry(&mut pool, 1);
    utf8(&mut pool, attribute_name);
    utf8(&mut pool, "Main.java");
    pool
}

fn sample_pool() -> Vec<Option<raw::CpInfo>> {
    vec![
        None,
        Some(raw::CpInfo::Utf8("java/lang/Object".to_string())),
        Some(raw::CpInfo::Class { name_index: 1 }),
        Some(raw::CpInfo::Utf8("value".to_string())),
        Some(raw::CpInfo::Utf8("I".to_string())),
        Some(raw::CpInfo::NameAndType { name_index: 3, descriptor_index: 4 }),
        Some(raw::CpInfo::Fieldref { class_index: 2, name_and_type_index: 5 }),
        Some(raw::CpInfo::Long(0xFFFF_FFFF, 0xFFFF_FFFE)),
        None,
        Some(raw::CpInfo::MethodHandle { reference_kind: 1, reference_index: 6 }),
        Some(raw::CpInfo::Integer(0xFFFF_FFFF)),
        Some(raw::CpInfo::String { string_index: 3 }),
        Some(raw::CpInfo::Double(0x3FF0_0000, 0)),
        None,
        Some(raw::CpInfo::Float(0x3F80_0000)),
        Some(raw::CpInfo::Methodref { class_index: 2, name_and_type_index: 5 }),
        Some(raw::CpInfo::InterfaceMethodref { class_index: 2, name_and_type_index: 5 }),
        Some(raw::CpInfo::MethodHandle { reference_kind: 9, reference_index: 16 }),
    ]
}

#[test]
fn minimal_class_with_source_file() {
    let mut attributes = Vec::new();
    attribute(&mut attributes, 3, &[0, 4]);
    let bytes = class_bytes(5, &small_pool("SourceFile"), 1, &attributes);
    let class = decode(&bytes).unwrap();
    assert_eq!(class.magic, Magic);
    assert_eq!(class.version, ClassFileVersion { major_version: 52, minor_version: 3 });
    assert_eq!(class.this_class, "Main");
    assert_eq!(class.super_class, None);
    assert!(class.interfaces.is_empty());
    assert!(class.fields.is_empty());
    assert!(class.methods.is_empty());
    assert_eq!(class.access_flags, vec![ClassAccessFlags::AccPublic, ClassAccessFlags::AccSuper]);
    assert_eq!(class.attributes, vec![AttributeInfo::SourceFile("Main.java".to_string())]);
    assert_eq!(class.constant_pool.len(), 5);
    assert_eq!(class.constant_pool[0], None);
    assert_eq!(class.constant_pool[2], Some(CpInfo::Class { name: "Main".to_string() }));
}

#[test]
fn raw_tree_keeps_indices() {
    let mut attributes = Vec::new();
    attribute(&mut attributes, 3, &[0, 4]);
    let bytes = class_bytes(5, &small_pool("SourceFile"), 1, &attributes);
    let tree = parse_raw(&bytes).unwrap();
    assert_eq!(tree.magic, 0xCAFEBABE);
    assert_eq!(tree.minor_version, 3);
    assert_eq!(tree.major_version, 52);
    assert_eq!(tree.access_flags, 0x0021);
    assert_eq!(tree.this_class, 2);
    assert_eq!(tree.super_class, 0);
    assert_eq!(tree.constant_pool.len(), 5);
    assert_eq!(tree.constant_pool[1], Some(raw::CpInfo::Utf8("Main".to_string())));
    assert_eq!(tree.constant_pool[2], Some(raw::CpInfo::Class { name_index: 1 }));
    assert_eq!(
        tree.attributes,
        vec![raw::AttributeInfo { attribute_name_index: 3, info: vec![0, 4] }]
    );
    assert_eq!(raw::parse(&bytes), Ok(tree));
}

#[test]
fn exceptions_count_must_match_payload() {
    let mut attributes = Vec::new();
    attribute(&mut attributes, 3, &[0, 2, 0, 2]);
    let bytes = class_bytes(5, &small_pool("Exceptions"), 1, &attributes);
    assert_eq!(decode(&bytes), Err(ParseError::MalformedAttribute));
    let pool = sample_pool();
    assert_eq!(
        interpret("Exceptions".to_string(), &[0, 2, 0, 2], &pool),
        Err(ParseError::MalformedAttribute)
    );
    assert_eq!(
        interpret("Exceptions".to_string(), &[0, 1, 0, 2, 0], &pool),
        Err(ParseError::MalformedAttribute)
    );
    assert_eq!(
        interpret("Exceptions".to_string(), &[0, 2, 0, 2, 0, 2], &pool),
        Ok(AttributeInfo::Exceptions(vec![
            "java/lang/Object".to_string(),
            "java/lang/Object".to_string()
        ]))
    );
    assert_eq!(
        interpret("Exceptions".to_string(), &[0, 1, 0, 3], &pool),
        Err(ParseError::WrongKind { expected: ExpectedKind::Class, found: ConstantKind::Utf8 })
    );
}

#[test]
fn method_handle_with_unknown_reference_kind() {
    let mut pool = sample_pool();
    pool.push(Some(raw::CpInfo::MethodHandle { reference_kind: 0, reference_index: 6 }));
    pool.push(Some(raw::CpInfo::MethodHandle { reference_kind: 0, reference_index: 999 }));
    pool.push(Some(raw::CpInfo::MethodHandle { reference_kind: 10, reference_index: 0 }));
    assert_eq!(resolve_index(&pool, 18), Err(ParseError::UnknownReferenceKind(0)));
    assert_eq!(resolve_index(&pool, 19), Err(ParseError::UnknownReferenceKind(0)));
    assert_eq!(resolve_index(&pool, 20), Err(ParseError::UnknownReferenceKind(10)));
}

#[test]
fn unknown_attribute_keeps_name_and_bytes() {
    let mut attributes = Vec::new();
    attribute(&mut attributes, 3, &[1, 2, 3, 0xFF]);
    let bytes = class_bytes(5, &small_pool("Module"), 1, &attributes);
    let class = decode(&bytes).unwrap();
    assert_eq!(
        class.attributes,
        vec![AttributeInfo::Unknown("Module".to_string(), vec![1, 2, 3, 0xFF])]
    );
}

#[test]
fn code_payload_is_kept() {
    let pool = sample_pool();
    assert_eq!(
        interpret("Code".to_string(), &[0xB1, 0, 7], &pool),
        Ok(AttributeInfo::Code(vec![0xB1, 0, 7]))
    );
}

#[test]
fn pool_length_counts_phantom_slots() {
    let mut pool = Vec::new();
    utf8(&mut pool, "Main");
    class_entry(&mut pool, 1);
    pool.push(5);
    u4(&mut pool, 1);
    u4(&mut pool, 2);
    pool.push(6);
    u4(&mut pool, 3);
    u4(&mut pool, 4);
    pool.push(3);
    u4(&mut pool, 7);
    let bytes = class_bytes(8, &pool, 0, &[]);
    let tree = parse_raw(&bytes).unwrap();
    assert_eq!(tree.constant_pool.len(), 8);
    assert_eq!(tree.constant_pool[3], Some(raw::CpInfo::Long(1, 2)));
    assert_eq!(tree.constant_pool[4], None);
    assert_eq!(tree.constant_pool[5], Some(raw::CpInfo::Double(3, 4)));
    assert_eq!(tree.constant_pool[6], None);
    assert_eq!(tree.constant_pool[7], Some(raw::CpInfo::Integer(7)));
    let class = wrap(&tree).unwrap();
    assert_eq!(class.constant_pool.len(), 8);
    assert_eq!(class.constant_pool[3], Some(CpInfo::Long(0x1_0000_0002)));
    assert_eq!(class.constant_pool[4], None);
    assert_eq!(class.constant_pool[5], Some(CpInfo::Double(0x3_0000_0004)));
    assert_eq!(class.constant_pool[7], Some(CpInfo::Integer(7)));
}

#[test]
fn wide_entry_in_last_slot_brings_its_phantom() {
    let mut pool = Vec::new();
    utf8(&mut pool, "Main");
    class_entry(&mut pool, 1);
    pool.push(5);
    u4(&mut pool, 0);
    u4(&mut pool, 9);
    let bytes = class_bytes(4, &pool, 0, &[]);
    let class = decode(&bytes).unwrap();
    assert_eq!(class.constant_pool.len(), 5);
    assert_eq!(class.constant_pool[3], Some(CpInfo::Long(9)));
    assert_eq!(class.constant_pool[4], None);
}

#[test]
fn bad_magic_is_reported_first() {
    let mut attributes = Vec::new();
    attribute(&mut attributes, 3, &[0, 4]);
    let good = class_bytes(5, &small_pool("SourceFile"), 1, &attributes);
    for byte in 0..4 {
        for bit in 0..8 {
            let mut bytes = good.clone();
            bytes[byte] ^= 1 << bit;
            assert_eq!(parse_raw(&bytes), Err(ParseError::BadMagicNumber));
            assert_eq!(decode(&bytes), Err(ParseError::BadMagicNumber));
        }
    }
    assert_eq!(parse_raw(&[0xCA, 0xFE, 0xBA, 0xBF]), Err(ParseError::BadMagicNumber));
    assert_eq!(parse_raw(&[0, 0, 0, 0, 9, 9, 9]), Err(ParseError::BadMagicNumber));
    assert_eq!(parse_raw(&[0xCA, 0xFE, 0xBA]), Err(ParseError::Io));
    assert_eq!(parse_raw(&[]), Err(ParseError::Io));
}

#[test]
fn wrap_refuses_a_tree_without_magic() {
    let bytes = class_bytes(5, &small_pool("SourceFile"), 0, &[]);
    let mut tree = parse_raw(&bytes).unwrap();
    tree.magic = 0xCAFEBABF;
    assert_eq!(wrap(&tree), Err(ParseError::BadMagicNumber));
}

#[test]
fn phantom_slot_is_no_reference_target() {
    let pool = sample_pool();
    assert_eq!(
        resolve_utf8(&pool, 8),
        Err(ParseError::WrongKind { expected: ExpectedKind::Utf8, found: ConstantKind::Empty })
    );
    assert_eq!(
        resolve_class(&pool, 8),
        Err(ParseError::WrongKind { expected: ExpectedKind::Class, found: ConstantKind::Empty })
    );
    assert_eq!(
        resolve_index(&pool, 13),
        Err(ParseError::WrongKind { expected: ExpectedKind::Entry, found: ConstantKind::Empty })
    );
    assert_eq!(
        resolve_index(&pool, 0),
        Err(ParseError::WrongKind { expected: ExpectedKind::Entry, found: ConstantKind::Empty })
    );
    assert_eq!(
        interpret("ConstantValue".to_string(), &[0, 8], &pool),
        Err(ParseError::WrongKind {
            expected: ExpectedKind::ConstantValue,
            found: ConstantKind::Empty
        })
    );
    assert_eq!(
        interpret("ConstantValue".to_string(), &[0, 13], &pool),
        Err(ParseError::WrongKind {
            expected: ExpectedKind::ConstantValue,
            found: ConstantKind::Empty
        })
    );
    assert_eq!(
        interpret("ConstantValue".to_string(), &[0, 0], &pool),
        Err(ParseError::WrongKind {
            expected: ExpectedKind::ConstantValue,
            found: ConstantKind::Empty
        })
    );
}

#[test]
fn index_out_of_range() {
    let pool = sample_pool();
    assert_eq!(resolve_utf8(&pool, 18), Err(ParseError::IndexOutOfRange(18)));
    assert_eq!(resolve_class(&pool, 0xFFFF), Err(ParseError::IndexOutOfRange(0xFFFF)));
    assert_eq!(resolve_index(&pool, 18), Err(ParseError::IndexOutOfRange(18)));
    assert_eq!(
        interpret("SourceFile".to_string(), &[0, 200], &pool),
        Err(ParseError::IndexOutOfRange(200))
    );
}

#[test]
fn resolution_follows_every_index() {
    let pool = sample_pool();
    assert_eq!(resolve_index(&pool, 1), Ok(CpInfo::Utf8("java/lang/Object".to_string())));
    assert_eq!(resolve_index(&pool, 2), Ok(CpInfo::Class { name: "java/lang/Object".to_string() }));
    assert_eq!(
        resolve_index(&pool, 5),
        Ok(CpInfo::NameAndType { name: "value".to_string(), descriptor: "I".to_string() })
    );
    assert_eq!(
        resolve_index(&pool, 6),
        Ok(CpInfo::Fieldref {
            class: "java/lang/Object".to_string(),
            name: "value".to_string(),
            descriptor: "I".to_string()
        })
    );
    assert_eq!(resolve_index(&pool, 7), Ok(CpInfo::Long(-2)));
    assert_eq!(
        resolve_index(&pool, 9),
        Ok(CpInfo::MethodHandle {
            reference_kind: ReferenceKind::RefGetField,
            class: "java/lang/Object".to_string(),
            name: "value".to_string(),
            descriptor: "I".to_string()
        })
    );
    assert_eq!(resolve_index(&pool, 10), Ok(CpInfo::Integer(-1)));
    assert_eq!(resolve_index(&pool, 11), Ok(CpInfo::String { string: "value".to_string() }));
    assert_eq!(resolve_index(&pool, 12), Ok(CpInfo::Double(0x3FF0_0000_0000_0000)));
    assert_eq!(resolve_index(&pool, 14), Ok(CpInfo::Float(0x3F80_0000)));
    assert_eq!(f32::from_bits(0x3F80_0000), 1.0f32);
    assert_eq!(f64::from_bits(0x3FF0_0000_0000_0000), 1.0f64);
    assert_eq!(
        resolve_index(&pool, 17),
        Ok(CpInfo::MethodHandle {
            reference_kind: ReferenceKind::RefNewInvokeInterface,
            class: "java/lang/Object".to_string(),
            name: "value".to_string(),
            descriptor: "I".to_string()
        })
    );
}

#[test]
fn wrong_kind_is_reported_with_both_kinds() {
    let mut pool = sample_pool();
    pool.push(Some(raw::CpInfo::Fieldref { class_index: 1, name_and_type_index: 5 }));
    pool.push(Some(raw::CpInfo::Fieldref { class_index: 2, name_and_type_index: 2 }));
    pool.push(Some(raw::CpInfo::MethodHandle { reference_kind: 5, reference_index: 2 }));
    pool.push(Some(raw::CpInfo::Module { name_index: 2 }));
    assert_eq!(
        resolve_index(&pool, 18),
        Err(ParseError::WrongKind { expected: ExpectedKind::Class, found: ConstantKind::Utf8 })
    );
    assert_eq!(
        resolve_index(&pool, 19),
        Err(ParseError::WrongKind { expected: ExpectedKind::NameAndType, found: ConstantKind::Class })
    );
    assert_eq!(
        resolve_index(&pool, 20),
        Err(ParseError::WrongKind { expected: ExpectedKind::MemberRef, found: ConstantKind::Class })
    );
    assert_eq!(
        resolve_index(&pool, 21),
        Err(ParseError::WrongKind { expected: ExpectedKind::Utf8, found: ConstantKind::Class })
    );
    assert_eq!(
        resolve_utf8(&pool, 7),
        Err(ParseError::WrongKind { expected: ExpectedKind::Utf8, found: ConstantKind::Long })
    );
}

#[test]
fn resolving_twice_gives_the_same() {
    let pool = sample_pool();
    for item in pool.iter() {
        let first = parse_cp_info(&pool, item);
        let second = parse_cp_info(&pool, item);
        assert_eq!(first, second);
    }
    assert_eq!(parse_cp_info(&pool, &None), Ok(None));
    assert_eq!(pool, sample_pool());
}

#[test]
fn constant_value_kinds() {
    let pool = sample_pool();
    assert_eq!(
        interpret("ConstantValue".to_string(), &[0, 10], &pool),
        Ok(AttributeInfo::ConstantValue(ConstantValueAttribute::Integer(-1)))
    );
    assert_eq!(
        interpret("ConstantValue".to_string(), &[0, 7], &pool),
        Ok(AttributeInfo::ConstantValue(ConstantValueAttribute::Long(-2)))
    );
    assert_eq!(
        interpret("ConstantValue".to_string(), &[0, 14], &pool),
        Ok(AttributeInfo::ConstantValue(ConstantValueAttribute::Float(0x3F80_0000)))
    );
    assert_eq!(
        interpret("ConstantValue".to_string(), &[0, 12], &pool),
        Ok(AttributeInfo::ConstantValue(ConstantValueAttribute::Double(0x3FF0_0000_0000_0000)))
    );
    assert_eq!(
        interpret("ConstantValue".to_string(), &[0, 11], &pool),
        Ok(AttributeInfo::ConstantValue(ConstantValueAttribute::String("value".to_string())))
    );
    assert_eq!(
        interpret("ConstantValue".to_string(), &[0, 2], &pool),
        Err(ParseError::UnexpectedConstantValue(ConstantKind::Class))
    );
    assert_eq!(
        interpret("ConstantValue".to_string(), &[0, 10, 0], &pool),
        Err(ParseError::MalformedAttribute)
    );
    assert_eq!(
        interpret("ConstantValue".to_string(), &[0], &pool),
        Err(ParseError::MalformedAttribute)
    );
    assert_eq!(
        interpret("SourceFile".to_string(), &[], &pool),
        Err(ParseError::MalformedAttribute)
    );
}

#[test]
fn bootstrap_methods_are_linked() {
    let pool = sample_pool();
    let payload = [0, 2, 0, 9, 0, 2, 0, 10, 0, 6, 0, 17, 0, 0];
    let first = BootstrapMethod {
        reference_kind: ReferenceKind::RefGetField,
        class: "java/lang/Object".to_string(),
        name: "value".to_string(),
        descriptor: "I".to_string(),
        bootstrap_arguments: vec![
            CpInfo::Integer(-1),
            CpInfo::Fieldref {
                class: "java/lang/Object".to_string(),
                name: "value".to_string(),
                descriptor: "I".to_string(),
            },
        ],
    };
    let second = BootstrapMethod {
        reference_kind: ReferenceKind::RefNewInvokeInterface,
        class: "java/lang/Object".to_string(),
        name: "value".to_string(),
        descriptor: "I".to_string(),
        bootstrap_arguments: vec![],
    };
    assert_eq!(
        interpret("BootstrapMethods".to_string(), &payload, &pool),
        Ok(AttributeInfo::BootstrapMethods(vec![first, second]))
    );
    assert_eq!(
        interpret("BootstrapMethods".to_string(), &[0, 1, 0, 9, 0, 2, 0, 10], &pool),
        Err(ParseError::MalformedAttribute)
    );
    assert_eq!(
        interpret("BootstrapMethods".to_string(), &[0, 1, 0, 9, 0, 0, 0, 10], &pool),
        Err(ParseError::MalformedAttribute)
    );
    assert_eq!(
        interpret("BootstrapMethods".to_string(), &[0, 1, 0, 6, 0, 0], &pool),
        Err(ParseError::WrongKind {
            expected: ExpectedKind::MethodHandle,
            found: ConstantKind::Fieldref
        })
    );
    assert_eq!(
        interpret("BootstrapMethods".to_string(), &[0, 1, 0, 9, 0, 1, 0, 8], &pool),
        Err(ParseError::WrongKind { expected: ExpectedKind::Entry, found: ConstantKind::Empty })
    );
}

#[test]
fn inner_classes_are_linked() {
    let pool = sample_pool();
    let payload = [0, 2, 0, 2, 0, 2, 0, 3, 0x06, 0x09, 0, 2, 0, 0, 0, 0, 0, 0];
    assert_eq!(
        interpret("InnerClasses".to_string(), &payload, &pool),
        Ok(AttributeInfo::InnerClasses(vec![
            InnerClass {
                inner_class_info: "java/lang/Object".to_string(),
                outer_class_info: Some("java/lang/Object".to_string()),
                inner_name: Some("value".to_string()),
                inner_class_access_flags: vec![
                    InnerClassAccessFlags::AccPublic,
                    InnerClassAccessFlags::AccStatic,
                    InnerClassAccessFlags::AccInterface,
                    InnerClassAccessFlags::AccAbstract,
                ],
            },
            InnerClass {
                inner_class_info: "java/lang/Object".to_string(),
                outer_class_info: None,
                inner_name: None,
                inner_class_access_flags: vec![],
            },
        ]))
    );
    assert_eq!(
        interpret("InnerClasses".to_string(), &[0, 1, 0, 2, 0, 0, 0, 0, 0, 0x20], &pool),
        Err(ParseError::UnknownFlags(0x20))
    );
    assert_eq!(
        interpret("InnerClasses".to_string(), &[0, 1, 0, 2, 0, 0, 0, 0], &pool),
        Err(ParseError::MalformedAttribute)
    );
    assert_eq!(
        interpret("InnerClasses".to_string(), &[0, 0, 0], &pool),
        Err(ParseError::MalformedAttribute)
    );
}

#[test]
fn attribute_name_must_be_text() {
    let pool = sample_pool();
    let attribute = raw::AttributeInfo { attribute_name_index: 2, info: vec![] };
    assert_eq!(
        parse_attribute_info(&pool, &attribute),
        Err(ParseError::WrongKind { expected: ExpectedKind::Utf8, found: ConstantKind::Class })
    );
    let attribute = raw::AttributeInfo { attribute_name_index: 3, info: vec![9] };
    assert_eq!(
        parse_attribute_info(&pool, &attribute),
        Ok(AttributeInfo::Unknown("value".to_string(), vec![9]))
    );
}

#[test]
fn structural_errors() {
    let good = class_bytes(5, &small_pool("SourceFile"), 0, &[]);
    let mut trailing = good.clone();
    trailing.push(0);
    assert_eq!(parse_raw(&trailing), Err(ParseError::TrailingData));
    for cut in 4..good.len() {
        assert_eq!(parse_raw(&good[..cut]), Err(ParseError::Io));
    }
    let mut pool = Vec::new();
    pool.push(2);
    assert_eq!(parse_raw(&class_bytes(2, &pool, 0, &[])), Err(ParseError::UnknownTag(2)));
    let mut pool = Vec::new();
    pool.push(21);
    assert_eq!(parse_raw(&class_bytes(2, &pool, 0, &[])), Err(ParseError::UnknownTag(21)));
    let pool = [1, 0, 2, 0xC3, 0x28];
    assert_eq!(parse_raw(&class_bytes(2, &pool, 0, &[])), Err(ParseError::FromUtf8));
}

#[test]
fn text_is_decoded_as_utf8() {
    let mut pool = Vec::new();
    utf8(&mut pool, "h\u{e9}llo \u{4e16}\u{754c}");
    let bytes = class_bytes(2, &pool, 0, &[]);
    let tree = parse_raw(&bytes).unwrap();
    assert_eq!(
        tree.constant_pool[1],
        Some(raw::CpInfo::Utf8("h\u{e9}llo \u{4e16}\u{754c}".to_string()))
    );
}

#[test]
fn fields_and_methods_are_resolved() {
    let mut bytes = vec![0xCA, 0xFE, 0xBA, 0xBE];
    u2(&mut bytes, 0);
    u2(&mut bytes, 61);
    u2(&mut bytes, 9);
    utf8(&mut bytes, "Main");
    class_entry(&mut bytes, 1);
    utf8(&mut bytes, "java/lang/Object");
    class_entry(&mut bytes, 3);
    utf8(&mut bytes, "count");
    utf8(&mut bytes, "I");
    utf8(&mut bytes, "ConstantValue");
    bytes.push(3);
    u4(&mut bytes, 42);
    u2(&mut bytes, 0x0031);
    u2(&mut bytes, 2);
    u2(&mut bytes, 4);
    u2(&mut bytes, 1);
    u2(&mut bytes, 4);
    u2(&mut bytes, 1);
    u2(&mut bytes, 0x0019);
    u2(&mut bytes, 5);
    u2(&mut bytes, 6);
    u2(&mut bytes, 1);
    attribute(&mut bytes, 7, &[0, 8]);
    u2(&mut bytes, 1);
    u2(&mut bytes, 0x0401);
    u2(&mut bytes, 5);
    u2(&mut bytes, 6);
    u2(&mut bytes, 0);
    u2(&mut bytes, 0);
    let class = decode(&bytes).unwrap();
    assert_eq!(
        class.access_flags,
        vec![ClassAccessFlags::AccPublic, ClassAccessFlags::AccFinal, ClassAccessFlags::AccSuper]
    );
    assert_eq!(class.this_class, "Main");
    assert_eq!(class.super_class, Some("java/lang/Object".to_string()));
    assert_eq!(class.interfaces, vec!["java/lang/Object".to_string()]);
    assert_eq!(class.fields.len(), 1);
    assert_eq!(
        class.fields[0].access_flags,
        vec![FieldAccessFlags::AccPublic, FieldAccessFlags::AccStatic, FieldAccessFlags::AccFinal]
    );
    assert_eq!(class.fields[0].name, "count");
    assert_eq!(class.fields[0].descriptor, "I");
    assert_eq!(
        class.fields[0].attributes,
        vec![AttributeInfo::ConstantValue(ConstantValueAttribute::Integer(42))]
    );
    assert_eq!(class.methods.len(), 1);
    assert_eq!(
        class.methods[0].access_flags,
        vec![MethodAccessFlags::AccPublic, MethodAccessFlags::AccAbstract]
    );
    assert_eq!(class.methods[0].name, "count");
    assert!(class.methods[0].attributes.is_empty());
    assert_eq!(class.version, ClassFileVersion { major_version: 61, minor_version: 0 });
}

#[test]
fn unknown_class_flag_fails_the_decode() {
    let mut bytes = class_bytes(5, &small_pool("SourceFile"), 0, &[]);
    let at = bytes.len() - 14;
    assert_eq!(&bytes[at..at + 2], &[0x00, 0x21]);
    bytes[at + 1] = 0x23;
    assert_eq!(decode(&bytes), Err(ParseError::UnknownFlags(0x0023)));
}

#[test]
fn constant_value_behind_a_long_is_a_wrong_kind() {
    let pool = vec![
        None,
        Some(raw::CpInfo::Utf8("ConstantValue".to_string())),
        Some(raw::CpInfo::Long(0, 5)),
        None,
    ];
    let attribute = raw::AttributeInfo { attribute_name_index: 1, info: vec![0, 3] };
    assert_eq!(
        parse_attribute_info(&pool, &attribute),
        Err(ParseError::WrongKind {
            expected: ExpectedKind::ConstantValue,
            found: ConstantKind::Empty
        })
    );
    let attribute = raw::AttributeInfo { attribute_name_index: 1, info: vec![0, 2] };
    assert_eq!(
        parse_attribute_info(&pool, &attribute),
        Ok(AttributeInfo::ConstantValue(ConstantValueAttribute::Long(5)))
    );
    let attribute = raw::AttributeInfo { attribute_name_index: 1, info: vec![0, 1] };
    assert_eq!(
        parse_attribute_info(&pool, &attribute),
        Err(ParseError::UnexpectedConstantValue(ConstantKind::Utf8))
    );
    let attribute = raw::AttributeInfo { attribute_name_index: 1, info: vec![0, 4] };
    assert_eq!(parse_attribute_info(&pool, &attribute), Err(ParseError::IndexOutOfRange(4)));
}

#[test]
fn entry_that_refers_to_a_phantom_slot_fails() {
    let mut pool = sample_pool();
    pool.push(Some(raw::CpInfo::Class { name_index: 8 }));
    pool.push(Some(raw::CpInfo::Fieldref { class_index: 2, name_and_type_index: 8 }));
    pool.push(Some(raw::CpInfo::MethodHandle { reference_kind: 3, reference_index: 13 }));
    pool.push(Some(raw::CpInfo::MethodHandle { reference_kind: 0, reference_index: 13 }));
    assert_eq!(
        resolve_index(&pool, 18),
        Err(ParseError::WrongKind { expected: ExpectedKind::Utf8, found: ConstantKind::Empty })
    );
    assert_eq!(
        resolve_index(&pool, 19),
        Err(ParseError::WrongKind {
            expected: ExpectedKind::NameAndType,
            found: ConstantKind::Empty
        })
    );
    assert_eq!(
        resolve_index(&pool, 20),
        Err(ParseError::WrongKind { expected: ExpectedKind::MemberRef, found: ConstantKind::Empty })
    );
    assert_eq!(resolve_index(&pool, 21), Err(ParseError::UnknownReferenceKind(0)));
}

#[test]
fn only_slot_zero_and_phantom_slots_are_empty() {
    let mut pool = Vec::new();
    utf8(&mut pool, "Main");
    class_entry(&mut pool, 1);
    pool.push(6);
    u4(&mut pool, 3);
    u4(&mut pool, 4);
    pool.push(4);
    u4(&mut pool, 7);
    let bytes = class_bytes(6, &pool, 0, &[]);
    let tree = parse_raw(&bytes).unwrap();
    let empty: Vec<bool> = tree.constant_pool.iter().map(|slot| slot.is_none()).collect();
    assert_eq!(empty, vec![true, false, false, false, true, false]);
    let class = wrap(&tree).unwrap();
    let empty: Vec<bool> = class.constant_pool.iter().map(|slot| slot.is_none()).collect();
    assert_eq!(empty, vec![true, false, false, false, true, false]);
    assert_eq!(class.constant_pool[3], Some(CpInfo::Double(0x3_0000_0004)));
    assert_eq!(class.constant_pool[5], Some(CpInfo::Float(7)));
}
