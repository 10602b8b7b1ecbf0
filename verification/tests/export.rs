use jcdump::export::bytes_text;
use jcdump::raw::{ConstantKind, ExpectedKind, ParseError};
use jcdump::{AttributeInfo, ClassFileVersion};

#[test]
fn opaque_bytes_become_base64() {
    assert_eq!(bytes_text(&[]), Some("".to_string()));
    assert_eq!(bytes_text(b"f"), Some("Zg==".to_string()));
    assert_eq!(bytes_text(b"fo"), Some("Zm8=".to_string()));
    assert_eq!(bytes_text(b"foobar"), Some("Zm9vYmFy".to_string()));
    assert_eq!(bytes_text(&[0xFB, 0xFF]), Some("+/8=".to_string()));
}

#[test]
fn payload_text_of_each_kind() {
    assert_eq!(AttributeInfo::Code(vec![1, 2, 3]).payload_text(), Some("AQID".to_string()));
    assert_eq!(
        AttributeInfo::Unknown("Module".to_string(), vec![0xCA, 0xFE]).payload_text(),
        Some("yv4=".to_string())
    );
    assert_eq!(AttributeInfo::SourceFile("Main.java".to_string()).payload_text(), None);
    assert_eq!(AttributeInfo::Exceptions(vec![]).payload_text(), None);
}

#[test]
fn version_text_is_major_dot_minor() {
    assert_eq!(ClassFileVersion { major_version: 52, minor_version: 0 }.text(), "52.0");
    assert_eq!(ClassFileVersion { major_version: 0, minor_version: 9 }.text(), "0.9");
    assert_eq!(ClassFileVersion { major_version: 45, minor_version: 3 }.text(), "45.3");
    assert_eq!(ClassFileVersion { major_version: 100, minor_version: 1010 }.text(), "100.1010");
    assert_eq!(
        ClassFileVersion { major_version: 65535, minor_version: 65535 }.text(),
        "65535.65535"
    );
    for major in 0..=u16::MAX {
        let version = ClassFileVersion { major_version: major, minor_version: major / 7 };
        assert_eq!(version.text(), format!("{}.{}", major, major / 7));
    }
}

#[test]
fn each_error_has_its_line() {
    assert_eq!(ParseError::Io.message(), "io error. failed to fill whole buffer");
    assert_eq!(ParseError::BadMagicNumber.message(), "bad magic number");
    assert_eq!(ParseError::FromUtf8.message(), "from utf8 error. invalid utf-8 sequence");
    assert_eq!(ParseError::UnknownTag(21).message(), "unknown constant pool tag 21");
    assert_eq!(ParseError::UnknownTag(255).message(), "unknown constant pool tag 255");
    assert_eq!(ParseError::TrailingData.message(), "trailing data after the class");
    assert_eq!(
        ParseError::IndexOutOfRange(65535).message(),
        "constant pool index out of range: 65535"
    );
    assert_eq!(
        ParseError::WrongKind { expected: ExpectedKind::Class, found: ConstantKind::Utf8 }.message(),
        "wrong kind of constant. expected Class, found Utf8"
    );
    assert_eq!(
        ParseError::WrongKind { expected: ExpectedKind::MemberRef, found: ConstantKind::Empty }
            .message(),
        "wrong kind of constant. expected Fieldref, Methodref or InterfaceMethodref, found an empty slot"
    );
    assert_eq!(
        ParseError::WrongKind { expected: ExpectedKind::Entry, found: ConstantKind::Empty }
            .message(),
        "wrong kind of constant. expected an entry, found an empty slot"
    );
    assert_eq!(
        ParseError::WrongKind {
            expected: ExpectedKind::ConstantValue,
            found: ConstantKind::Empty
        }
        .message(),
        "wrong kind of constant. expected Integer, Float, Long, Double or String, found an empty slot"
    );
    assert_eq!(ParseError::UnknownReferenceKind(0).message(), "unknown reference kind 0");
    assert_eq!(ParseError::UnknownFlags(32).message(), "unknown bits in access flags 32");
    assert_eq!(ParseError::MalformedAttribute.message(), "malformed attribute");
    assert_eq!(
        ParseError::UnexpectedConstantValue(ConstantKind::MethodHandle).message(),
        "unexpected constant value: MethodHandle"
    );
    let all = [
        ParseError::Io,
        ParseError::BadMagicNumber,
        ParseError::FromUtf8,
        ParseError::UnknownTag(0),
        ParseError::TrailingData,
        ParseError::IndexOutOfRange(0),
        ParseError::WrongKind { expected: ExpectedKind::Utf8, found: ConstantKind::Long },
        ParseError::UnknownReferenceKind(0),
        ParseError::UnknownFlags(0),
        ParseError::MalformedAttribute,
        ParseError::UnexpectedConstantValue(ConstantKind::Float),
    ];
    for (i, a) in all.iter().enumerate() {
        assert!(!a.message().contains('\n'));
        for b in all.iter().skip(i + 1) {
            assert_ne!(a.message(), b.message());
        }
    }
}
