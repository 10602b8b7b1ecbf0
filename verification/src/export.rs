//! Text forms for export: the bytes of an opaque payload as base64, the
//! version of a class as `major.minor`, and an error as one line of text.
use crate::raw::{ConstantKind, ExpectedKind, ParseError};
use crate::{AttributeInfo, AttributeInfoView, ClassFileVersion};
use vstd::prelude::*;
use vstd::string::StringExecFns;

verus! {

/// The padded base64 text, in the standard alphabet, of `bytes`.
pub uninterp spec fn base64_text(bytes: Seq<u8>) -> Seq<char>;

/// A payload of `len` bytes has a base64 text whose length fits in `usize`.
pub open spec fn encodable(len: int) -> bool {
    (len / 3) * 4 + 4 <= usize::MAX
}

/// Calls `Engine::encode` of the base64 crate on its `STANDARD` engine. The
/// result is taken to be a function of the bytes alone; the call panics where
/// the length of the text does not fit in `usize`, which `requires` leaves out.
#[verifier::external_body]
fn encode_base64(bytes: &[u8]) -> (r: String)
    requires
        encodable(bytes@.len() as int),
    ensures
        r@ == base64_text(bytes@),
{
    base64::Engine::encode(&base64::engine::general_purpose::STANDARD, bytes)
}

/// The bytes that an attribute keeps undecoded: the payload of `Code` and of
/// `Unknown`.
pub open spec fn opaque_payload(attribute: AttributeInfoView) -> Option<Seq<u8>> {
    match attribute {
        AttributeInfoView::Code(bytes) => Some(bytes),
        AttributeInfoView::Unknown(_, bytes) => Some(bytes),
        _ => None,
    }
}

/// The base64 text of `bytes`, or `None` where the text would be too long.
pub fn bytes_text(bytes: &[u8]) -> (r: Option<String>)
    ensures
        encodable(bytes@.len() as int) ==> r is Some && r->Some_0@ == base64_text(bytes@),
        !encodable(bytes@.len() as int) ==> r is None,
{
    if bytes.len() / 3 > (usize::MAX - 4) / 4 {
        None
    } else {
        Some(encode_base64(bytes))
    }
}

impl AttributeInfo {
    /// The undecoded payload of the attribute as base64 text: `Some` for
    /// `Code` and `Unknown` (unless the text would be too long), `None` for
    /// the kinds that are decoded.
    pub fn payload_text(&self) -> (r: Option<String>)
        ensures
            match opaque_payload(self@) {
                Some(bytes) => if encodable(bytes.len() as int) {
                    r is Some && r->Some_0@ == base64_text(bytes)
                } else {
                    r is None
                },
                None => r is None,
            },
    {
        match self {
            AttributeInfo::Code(bytes) => bytes_text(bytes.as_slice()),
            AttributeInfo::Unknown(_, bytes) => bytes_text(bytes.as_slice()),
            _ => None,
        }
    }
}

/// The character for the digit `d`.
pub open spec fn digit_char(d: int) -> char {
    if d == 0 {
        '0'
    } else if d == 1 {
        '1'
    } else if d == 2 {
        '2'
    } else if d == 3 {
        '3'
    } else if d == 4 {
        '4'
    } else if d == 5 {
        '5'
    } else if d == 6 {
        '6'
    } else if d == 7 {
        '7'
    } else if d == 8 {
        '8'
    } else {
        '9'
    }
}

/// The decimal digits of `n`, without leading zeros.
pub open spec fn decimal(n: nat) -> Seq<char>
    decreases n,
{
    if n < 10 {
        seq![digit_char(n as int)]
    } else {
        decimal(n / 10).push(digit_char((n % 10) as int))
    }
}

/// The text of a version: the major version, a dot, the minor version.
pub open spec fn version_text(version: ClassFileVersion) -> Seq<char> {
    decimal(version.major_version as nat) + seq!['.'] + decimal(version.minor_version as nat)
}

fn digit_text(d: u16) -> (r: &'static str)
    requires
        d < 10,
    ensures
        r@ == seq![digit_char(d as int)],
{
    proof {
        reveal_strlit("0");
        reveal_strlit("1");
        reveal_strlit("2");
        reveal_strlit("3");
        reveal_strlit("4");
        reveal_strlit("5");
        reveal_strlit("6");
        reveal_strlit("7");
        reveal_strlit("8");
        reveal_strlit("9");
    }
    let r = match d {
        0 => "0",
        1 => "1",
        2 => "2",
        3 => "3",
        4 => "4",
        5 => "5",
        6 => "6",
        7 => "7",
        8 => "8",
        _ => "9",
    };
    assert(r@ =~= seq![digit_char(d as int)]);
    r
}

/// Appends the decimal digits of `n` to `text`.
fn append_decimal(text: &mut String, n: u16)
    ensures
        final(text)@ == old(text)@ + decimal(n as nat),
    decreases n,
{
    if n >= 10 {
        append_decimal(text, n / 10);
    }
    text.append(digit_text(n % 10));
    assert(text@ =~= old(text)@ + decimal(n as nat));
}

impl ClassFileVersion {
    /// The version as text, such as `52.0`.
    pub fn text(&self) -> (r: String)
        ensures
            r@ == version_text(*self),
    {
        let mut r = String::new();
        append_decimal(&mut r, self.major_version);
        proof {
            reveal_strlit(".");
        }
        r.append(".");
        append_decimal(&mut r, self.minor_version);
        assert(r@ =~= version_text(*self));
        r
    }
}

/// The name of a kind of constant.
pub open spec fn kind_name(kind: ConstantKind) -> Seq<char> {
    match kind {
        ConstantKind::Empty => "an empty slot"@,
        ConstantKind::Utf8 => "Utf8"@,
        ConstantKind::Integer => "Integer"@,
        ConstantKind::Float => "Float"@,
        ConstantKind::Long => "Long"@,
        ConstantKind::Double => "Double"@,
        ConstantKind::Class => "Class"@,
        ConstantKind::String => "String"@,
        ConstantKind::Fieldref => "Fieldref"@,
        ConstantKind::Methodref => "Methodref"@,
        ConstantKind::InterfaceMethodref => "InterfaceMethodref"@,
        ConstantKind::NameAndType => "NameAndType"@,
        ConstantKind::MethodHandle => "MethodHandle"@,
        ConstantKind::MethodType => "MethodType"@,
        ConstantKind::Dynamic => "Dynamic"@,
        ConstantKind::InvokeDynamic => "InvokeDynamic"@,
        ConstantKind::Module => "Module"@,
        ConstantKind::Package => "Package"@,
    }
}

/// The words for what a reference has to point at.
pub open spec fn expected_name(expected: ExpectedKind) -> Seq<char> {
    match expected {
        ExpectedKind::Utf8 => "Utf8"@,
        ExpectedKind::Class => "Class"@,
        ExpectedKind::NameAndType => "NameAndType"@,
        ExpectedKind::MemberRef => "Fieldref, Methodref or InterfaceMethodref"@,
        ExpectedKind::MethodHandle => "MethodHandle"@,
        ExpectedKind::ConstantValue => "Integer, Float, Long, Double or String"@,
        ExpectedKind::Entry => "an entry"@,
    }
}

fn kind_text(kind: ConstantKind) -> (r: &'static str)
    ensures
        r@ == kind_name(kind),
{
    match kind {
        ConstantKind::Empty => "an empty slot",
        ConstantKind::Utf8 => "Utf8",
        ConstantKind::Integer => "Integer",
        ConstantKind::Float => "Float",
        ConstantKind::Long => "Long",
        ConstantKind::Double => "Double",
        ConstantKind::Class => "Class",
        ConstantKind::String => "String",
        ConstantKind::Fieldref => "Fieldref",
        ConstantKind::Methodref => "Methodref",
        ConstantKind::InterfaceMethodref => "InterfaceMethodref",
        ConstantKind::NameAndType => "NameAndType",
        ConstantKind::MethodHandle => "MethodHandle",
        ConstantKind::MethodType => "MethodType",
        ConstantKind::Dynamic => "Dynamic",
        ConstantKind::InvokeDynamic => "InvokeDynamic",
        ConstantKind::Module => "Module",
        ConstantKind::Package => "Package",
    }
}

fn expected_text(expected: ExpectedKind) -> (r: &'static str)
    ensures
        r@ == expected_name(expected),
{
    match expected {
        ExpectedKind::Utf8 => "Utf8",
        ExpectedKind::Class => "Class",
        ExpectedKind::NameAndType => "NameAndType",
        ExpectedKind::MemberRef => "Fieldref, Methodref or InterfaceMethodref",
        ExpectedKind::MethodHandle => "MethodHandle",
        ExpectedKind::ConstantValue => "Integer, Float, Long, Double or String",
        ExpectedKind::Entry => "an entry",
    }
}

/// The line of text that reports an error.
pub open spec fn message_of(error: ParseError) -> Seq<char> {
    match error {
        ParseError::Io => "io error. failed to fill whole buffer"@,
        ParseError::BadMagicNumber => "bad magic number"@,
        ParseError::FromUtf8 => "from utf8 error. invalid utf-8 sequence"@,
        ParseError::UnknownTag(tag) => "unknown constant pool tag "@ + decimal(tag as nat),
        ParseError::TrailingData => "trailing data after the class"@,
        ParseError::IndexOutOfRange(index) => "constant pool index out of range: "@ + decimal(
            index as nat,
        ),
        ParseError::WrongKind { expected, found } => "wrong kind of constant. expected "@
            + expected_name(expected) + ", found "@ + kind_name(found),
        ParseError::UnknownReferenceKind(code) => "unknown reference kind "@ + decimal(code as nat),
        ParseError::UnknownFlags(flags) => "unknown bits in access flags "@ + decimal(flags as nat),
        ParseError::MalformedAttribute => "malformed attribute"@,
        ParseError::UnexpectedConstantValue(kind) => "unexpected constant value: "@ + kind_name(
            kind,
        ),
    }
}

impl ParseError {
    /// The error as one line of text.
    pub fn message(&self) -> (r: String)
        ensures
            r@ == message_of(*self),
    {
        match *self {
            ParseError::Io => String::from_str("io error. failed to fill whole buffer"),
            ParseError::BadMagicNumber => String::from_str("bad magic number"),
            ParseError::FromUtf8 => String::from_str("from utf8 error. invalid utf-8 sequence"),
            ParseError::UnknownTag(tag) => {
                let mut r = String::from_str("unknown constant pool tag ");
                append_decimal(&mut r, tag as u16);
                r
            },
            ParseError::TrailingData => String::from_str("trailing data after the class"),
            ParseError::IndexOutOfRange(index) => {
                let mut r = String::from_str("constant pool index out of range: ");
                append_decimal(&mut r, index);
                r
            },
            ParseError::WrongKind { expected, found } => {
                let mut r = String::from_str("wrong kind of constant. expected ");
                r.append(expected_text(expected));
                r.append(", found ");
                r.append(kind_text(found));
                r
            },
            ParseError::UnknownReferenceKind(code) => {
                let mut r = String::from_str("unknown reference kind ");
                append_decimal(&mut r, code as u16);
                r
            },
            ParseError::UnknownFlags(flags) => {
                let mut r = String::from_str("unknown bits in access flags ");
                append_decimal(&mut r, flags);
                r
            },
            ParseError::MalformedAttribute => String::from_str("malformed attribute"),
            ParseError::UnexpectedConstantValue(kind) => {
                let mut r = String::from_str("unexpected constant value: ");
                r.append(kind_text(kind));
                r
            },
        }
    }
}

} // verus!
