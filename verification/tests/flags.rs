use jcdump::flags::{decode_flags, AccessFlag};
use jcdump::raw::{
    read_bytes, read_magic, read_u1, read_u2, read_u4, read_utf8, ByteStream, ParseError,
};
use jcdump::resolve::{join_words, reference_kind, to_signed32, to_signed64};
use jcdump::{
    parse_class_access_flags, parse_field_access_flags, parse_inner_class_access_flags,
    parse_method_access_flags, ClassAccessFlags, FieldAccessFlags, InnerClassAccessFlags,
    MethodAccessFlags, ReferenceKind,
};

fn union<F: AccessFlag>(list: &[F]) -> u16 {
    list.iter().fold(0, |acc, f| acc | f.bit())
}

#[test]
fn class_flags_follow_the_table_order() {
    assert_eq!(
        parse_class_access_flags(0x8031),
        Ok(vec![
            ClassAccessFlags::AccPublic,
            ClassAccessFlags::AccFinal,
            ClassAccessFlags::AccSuper,
            ClassAccessFlags::AccModule
        ])
    );
    assert_eq!(parse_class_access_flags(0), Ok(vec![]));
    assert_eq!(parse_class_access_flags(0xF631), Ok(ClassAccessFlags::values()));
}

#[test]
fn protected_is_no_class_flag() {
    assert_eq!(parse_class_access_flags(0x0004), Err(ParseError::UnknownFlags(0x0004)));
    assert_eq!(parse_field_access_flags(0x0004), Ok(vec![FieldAccessFlags::AccProcted]));
    assert_eq!(parse_method_access_flags(0x0004), Ok(vec![MethodAccessFlags::AccProcted]));
    assert_eq!(
        parse_inner_class_access_flags(0x0004),
        Ok(vec![InnerClassAccessFlags::AccProtected])
    );
}

#[test]
fn unknown_bits_are_refused() {
    assert_eq!(parse_class_access_flags(0x0002), Err(ParseError::UnknownFlags(0x0002)));
    assert_eq!(parse_field_access_flags(0x0020), Err(ParseError::UnknownFlags(0x0020)));
    assert_eq!(parse_method_access_flags(0x0200), Err(ParseError::UnknownFlags(0x0200)));
    assert_eq!(parse_inner_class_access_flags(0x8001), Err(ParseError::UnknownFlags(0x8001)));
}

#[test]
fn decoding_then_or_gives_the_word_back() {
    let class_mask = union(&ClassAccessFlags::values());
    let field_mask = union(&FieldAccessFlags::values());
    let method_mask = union(&MethodAccessFlags::values());
    let inner_mask = union(&InnerClassAccessFlags::values());
    assert_eq!(class_mask, 0xF631);
    assert_eq!(field_mask, 0x50DF);
    assert_eq!(method_mask, 0x1DFF);
    assert_eq!(inner_mask, 0x761F);
    for flags in 0..=u16::MAX {
        match parse_class_access_flags(flags) {
            Ok(list) => {
                assert_eq!(flags & !class_mask, 0);
                assert_eq!(union(&list), flags);
            }
            Err(e) => {
                assert_ne!(flags & !class_mask, 0);
                assert_eq!(e, ParseError::UnknownFlags(flags));
            }
        }
        assert_eq!(parse_field_access_flags(flags).is_ok(), flags & !field_mask == 0);
        assert_eq!(parse_method_access_flags(flags).is_ok(), flags & !method_mask == 0);
        assert_eq!(parse_inner_class_access_flags(flags).is_ok(), flags & !inner_mask == 0);
    }
}

#[test]
fn decode_flags_against_a_given_table() {
    let table = vec![MethodAccessFlags::AccStatic, MethodAccessFlags::AccPublic];
    assert_eq!(
        decode_flags(0x0009, &table),
        Ok(vec![MethodAccessFlags::AccStatic, MethodAccessFlags::AccPublic])
    );
    assert_eq!(decode_flags(0x0001, &table), Ok(vec![MethodAccessFlags::AccPublic]));
    assert_eq!(decode_flags(0x0011, &table), Err(ParseError::UnknownFlags(0x0011)));
}

#[test]
fn flag_bits() {
    assert_eq!(ClassAccessFlags::AccModule.bit(), 0x8000);
    assert_eq!(FieldAccessFlags::AccVolatile.bit(), 0x0040);
    assert_eq!(MethodAccessFlags::AccSynthronized.bit(), 0x0020);
    assert_eq!(InnerClassAccessFlags::AccAnnotation.bit(), 0x2000);
}

#[test]
fn reads_are_big_endian_and_move_forward() {
    let data = [0x12, 0x34, 0x56, 0x78, 0x9A, 0xBC, 0xDE, 0x00, 0x02, 0x4F, 0x4B, 0xFF];
    let mut input = ByteStream::new(&data);
    assert_eq!(read_u1(&mut input), Ok(0x12));
    assert_eq!(input.pos, 1);
    assert_eq!(read_u2(&mut input), Ok(0x3456));
    assert_eq!(input.pos, 3);
    assert_eq!(read_u4(&mut input), Ok(0x789ABCDE));
    assert_eq!(input.pos, 7);
    assert_eq!(input.remaining(), 5);
    assert_eq!(read_utf8(&mut input), Ok("OK".to_string()));
    assert_eq!(input.pos, 11);
    assert_eq!(read_u2(&mut input), Err(ParseError::Io));
    assert_eq!(read_u4(&mut input), Err(ParseError::Io));
    assert_eq!(read_bytes(&mut input, 2), Err(ParseError::Io));
    assert_eq!(read_bytes(&mut input, 1), Ok(vec![0xFF]));
    assert_eq!(read_u1(&mut input), Err(ParseError::Io));
    assert_eq!(read_bytes(&mut input, 0), Ok(vec![]));
}

#[test]
fn invalid_text_is_refused() {
    let data = [0x00, 0x01, 0xFF];
    let mut input = ByteStream::new(&data);
    assert_eq!(read_utf8(&mut input), Err(ParseError::FromUtf8));
    let data = [0x00, 0x03, 0x41];
    let mut input = ByteStream::new(&data);
    assert_eq!(read_utf8(&mut input), Err(ParseError::Io));
}

#[test]
fn signed_values() {
    assert_eq!(to_signed32(0), 0);
    assert_eq!(to_signed32(0x7FFF_FFFF), i32::MAX);
    assert_eq!(to_signed32(0x8000_0000), i32::MIN);
    assert_eq!(to_signed32(0xFFFF_FFFF), -1);
    assert_eq!(join_words(0x1234_5678, 0x9ABC_DEF0), 0x1234_5678_9ABC_DEF0);
    assert_eq!(to_signed64(0x8000_0000_0000_0000), i64::MIN);
    assert_eq!(to_signed64(u64::MAX), -1);
    assert_eq!(to_signed64(5), 5);
}

#[test]
fn reference_kind_codes() {
    assert_eq!(reference_kind(0), None);
    assert_eq!(reference_kind(1), Some(ReferenceKind::RefGetField));
    assert_eq!(reference_kind(6), Some(ReferenceKind::RefInvokeStatic));
    assert_eq!(reference_kind(9), Some(ReferenceKind::RefNewInvokeInterface));
    assert_eq!(reference_kind(10), None);
}

#[test]
fn bad_magic_is_met_after_four_bytes() {
    let data = [0xCA, 0xFE, 0xBA, 0xBF, 0, 0, 0, 52];
    let mut input = ByteStream::new(&data);
    assert_eq!(read_magic(&mut input), Err(ParseError::BadMagicNumber));
    assert_eq!(input.pos, 4);
    let data = [0xCA, 0xFE, 0xBA, 0xBE, 0, 0, 0, 52];
    let mut input = ByteStream::new(&data);
    assert_eq!(read_magic(&mut input), Ok(()));
    assert_eq!(input.pos, 4);
    assert_eq!(read_u2(&mut input), Ok(0));
    let data = [0xCA, 0xFE, 0xBA];
    let mut input = ByteStream::new(&data);
    assert_eq!(read_magic(&mut input), Err(ParseError::Io));
}
