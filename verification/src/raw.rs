//! The structural layer: a forward-only byte cursor and the decoder that turns
//! the bytes of a class file into an index-based record tree. Nothing here
//! follows a constant-pool index.
use vstd::prelude::*;
use vstd::slice::{slice_subrange, slice_to_vec};
use vstd::utf8::{decode_utf8, valid_utf8};

verus! {

/// What a constant-pool slot holds; `Empty` is slot 0 and the slot after a
/// `Long` or `Double`.
#[derive(Debug, Clone, Copy, PartialEq, Eq)]
pub enum ConstantKind {
    Empty,
    Utf8,
    Integer,
    Float,
    Long,
    Double,
    Class,
    String,
    Fieldref,
    Methodref,
    InterfaceMethodref,
    NameAndType,
    MethodHandle,
    MethodType,
    Dynamic,
    InvokeDynamic,
    Module,
    Package,
}

/// What a reference into the constant pool has to point at.
#[derive(Debug, Clone, Copy, PartialEq, Eq)]
pub enum ExpectedKind {
    Utf8,
    Class,
    NameAndType,
    /// One of `Fieldref`, `Methodref`, `InterfaceMethodref`.
    MemberRef,
    MethodHandle,
    /// One of `Integer`, `Float`, `Long`, `Double`, `String`.
    ConstantValue,
    /// Any slot that is not empty.
    Entry,
}

/// Why a class file could not be decoded. Every error ends the decode.
#[derive(Debug, Clone, Copy, PartialEq, Eq)]
pub enum ParseError {
    /// The input ended inside a field.
    Io,
    BadMagicNumber,
    /// A text field is not valid UTF-8.
    FromUtf8,
    UnknownTag(u8),
    /// Bytes follow the last attribute of the class.
    TrailingData,
    IndexOutOfRange(u16),
    WrongKind { expected: ExpectedKind, found: ConstantKind },
    UnknownReferenceKind(u8),
    /// A flags word has a bit that its table does not name.
    UnknownFlags(u16),
    /// An attribute's payload is shorter or longer than its counts declare.
    MalformedAttribute,
    /// A `ConstantValue` attribute points at an entry of a kind that is no
    /// constant value.
    UnexpectedConstantValue(ConstantKind),
}

/// A constant-pool entry as it stands in the file: text, numbers as their 32-bit
/// words, and indices into the pool.
#[derive(Debug, Clone, PartialEq, Eq)]
pub enum CpInfo {
    Utf8(String),
    Integer(u32),
    Float(u32),
    Long(u32, u32),
    Double(u32, u32),
    Class { name_index: u16 },
    String { string_index: u16 },
    Fieldref { class_index: u16, name_and_type_index: u16 },
    Methodref { class_index: u16, name_and_type_index: u16 },
    InterfaceMethodref { class_index: u16, name_and_type_index: u16 },
    NameAndType { name_index: u16, descriptor_index: u16 },
    MethodHandle { reference_kind: u8, reference_index: u16 },
    MethodType { descriptor_index: u16 },
    Dynamic { bootstrap_method_attr_index: u16, name_and_type_index: u16 },
    InvokeDynamic { bootstrap_method_attr_index: u16, name_and_type_index: u16 },
    Module { name_index: u16 },
    Package { name_index: u16 },
}

/// The mathematical value of a [`CpInfo`].
pub enum CpInfoView {
    Utf8(Seq<char>),
    Integer(u32),
    Float(u32),
    Long(u32, u32),
    Double(u32, u32),
    Class { name_index: u16 },
    String { string_index: u16 },
    Fieldref { class_index: u16, name_and_type_index: u16 },
    Methodref { class_index: u16, name_and_type_index: u16 },
    InterfaceMethodref { class_index: u16, name_and_type_index: u16 },
    NameAndType { name_index: u16, descriptor_index: u16 },
    MethodHandle { reference_kind: u8, reference_index: u16 },
    MethodType { descriptor_index: u16 },
    Dynamic { bootstrap_method_attr_index: u16, name_and_type_index: u16 },
    InvokeDynamic { bootstrap_method_attr_index: u16, name_and_type_index: u16 },
    Module { name_index: u16 },
    Package { name_index: u16 },
}

impl View for CpInfo {
    type V = CpInfoView;

    open spec fn view(&self) -> CpInfoView {
        match *self {
            CpInfo::Utf8(s) => CpInfoView::Utf8(s@),
            CpInfo::Integer(v) => CpInfoView::Integer(v),
            CpInfo::Float(v) => CpInfoView::Float(v),
            CpInfo::Long(hi, lo) => CpInfoView::Long(hi, lo),
            CpInfo::Double(hi, lo) => CpInfoView::Double(hi, lo),
            CpInfo::Class { name_index } => CpInfoView::Class { name_index },
            CpInfo::String { string_index } => CpInfoView::String { string_index },
            CpInfo::Fieldref { class_index, name_and_type_index } => CpInfoView::Fieldref {
                class_index,
                name_and_type_index,
            },
            CpInfo::Methodref { class_index, name_and_type_index } => CpInfoView::Methodref {
                class_index,
                name_and_type_index,
            },
            CpInfo::InterfaceMethodref {
                class_index,
                name_and_type_index,
            } => CpInfoView::InterfaceMethodref { class_index, name_and_type_index },
            CpInfo::NameAndType { name_index, descriptor_index } => CpInfoView::NameAndType {
                name_index,
                descriptor_index,
            },
            CpInfo::MethodHandle { reference_kind, reference_index } => CpInfoView::MethodHandle {
                reference_kind,
                reference_index,
            },
            CpInfo::MethodType { descriptor_index } => CpInfoView::MethodType { descriptor_index },
            CpInfo::Dynamic {
                bootstrap_method_attr_index,
                name_and_type_index,
            } => CpInfoView::Dynamic { bootstrap_method_attr_index, name_and_type_index },
            CpInfo::InvokeDynamic {
                bootstrap_method_attr_index,
                name_and_type_index,
            } => CpInfoView::InvokeDynamic { bootstrap_method_attr_index, name_and_type_index },
            CpInfo::Module { name_index } => CpInfoView::Module { name_index },
            CpInfo::Package { name_index } => CpInfoView::Package { name_index },
        }
    }
}

impl CpInfoView {
    /// A `Long` or `Double`: the entry takes two slots of the pool.
    pub open spec fn is_wide(self) -> bool {
        self is Long || self is Double
    }
}

/// An attribute as it stands in the file: the index of its name, and its bytes.
#[derive(Debug, Clone, PartialEq, Eq)]
pub struct AttributeInfo {
    pub attribute_name_index: u16,
    pub info: Vec<u8>,
}

/// The mathematical value of an [`AttributeInfo`].
pub struct AttributeInfoView {
    pub attribute_name_index: u16,
    pub info: Seq<u8>,
}

impl View for AttributeInfo {
    type V = AttributeInfoView;

    open spec fn view(&self) -> AttributeInfoView {
        AttributeInfoView { attribute_name_index: self.attribute_name_index, info: self.info@ }
    }
}

/// A field as it stands in the file.
#[derive(Debug, Clone, PartialEq, Eq)]
pub struct FieldInfo {
    pub access_flags: u16,
    pub name_index: u16,
    pub descriptor_index: u16,
    pub attributes: Vec<AttributeInfo>,
}

/// A method as it stands in the file.
#[derive(Debug, Clone, PartialEq, Eq)]
pub struct MethodInfo {
    pub access_flags: u16,
    pub name_index: u16,
    pub descriptor_index: u16,
    pub attributes: Vec<AttributeInfo>,
}

/// The mathematical value of a field or method record: both have one layout.
pub struct MemberView {
    pub access_flags: u16,
    pub name_index: u16,
    pub descriptor_index: u16,
    pub attributes: Seq<AttributeInfoView>,
}

impl View for FieldInfo {
    type V = MemberView;

    open spec fn view(&self) -> MemberView {
        MemberView {
            access_flags: self.access_flags,
            name_index: self.name_index,
            descriptor_index: self.descriptor_index,
            attributes: attributes_view(self.attributes@),
        }
    }
}

impl View for MethodInfo {
    type V = MemberView;

    open spec fn view(&self) -> MemberView {
        MemberView {
            access_flags: self.access_flags,
            name_index: self.name_index,
            descriptor_index: self.descriptor_index,
            attributes: attributes_view(self.attributes@),
        }
    }
}

/// The record tree of a class file. The pool's slot 0 is always empty, and so
/// is the slot after each `Long` and `Double`.
#[derive(Debug, Clone, PartialEq, Eq)]
pub struct ClassFile {
    pub magic: u32,
    pub minor_version: u16,
    pub major_version: u16,
    pub constant_pool: Vec<Option<CpInfo>>,
    pub access_flags: u16,
    pub this_class: u16,
    pub super_class: u16,
    pub interfaces: Vec<u16>,
    pub fields: Vec<FieldInfo>,
    pub methods: Vec<MethodInfo>,
    pub attributes: Vec<AttributeInfo>,
}

/// The mathematical value of a [`ClassFile`].
pub struct ClassFileView {
    pub magic: u32,
    pub minor_version: u16,
    pub major_version: u16,
    pub constant_pool: Seq<Option<CpInfoView>>,
    pub access_flags: u16,
    pub this_class: u16,
    pub super_class: u16,
    pub interfaces: Seq<u16>,
    pub fields: Seq<MemberView>,
    pub methods: Seq<MemberView>,
    pub attributes: Seq<AttributeInfoView>,
}

impl View for ClassFile {
    type V = ClassFileView;

    open spec fn view(&self) -> ClassFileView {
        ClassFileView {
            magic: self.magic,
            minor_version: self.minor_version,
            major_version: self.major_version,
            constant_pool: pool_view(self.constant_pool@),
            access_flags: self.access_flags,
            this_class: self.this_class,
            super_class: self.super_class,
            interfaces: self.interfaces@,
            fields: fields_view(self.fields@),
            methods: methods_view(self.methods@),
            attributes: attributes_view(self.attributes@),
        }
    }
}

/// The value of a pool slot.
pub open spec fn slot_view(slot: Option<CpInfo>) -> Option<CpInfoView> {
    match slot {
        Some(entry) => Some(entry@),
        None => None,
    }
}

/// The value of a pool, slot by slot.
pub open spec fn pool_view(pool: Seq<Option<CpInfo>>) -> Seq<Option<CpInfoView>> {
    pool.map_values(|slot: Option<CpInfo>| slot_view(slot))
}

/// The values of a list of attributes.
pub open spec fn attributes_view(attributes: Seq<AttributeInfo>) -> Seq<AttributeInfoView> {
    attributes.map_values(|a: AttributeInfo| a@)
}

/// The values of a list of fields.
pub open spec fn fields_view(fields: Seq<FieldInfo>) -> Seq<MemberView> {
    fields.map_values(|f: FieldInfo| f@)
}

/// The values of a list of methods.
pub open spec fn methods_view(methods: Seq<MethodInfo>) -> Seq<MemberView> {
    methods.map_values(|m: MethodInfo| m@)
}

/// The first four bytes of every class file.
pub const MAGIC: u32 = 0xCAFEBABE;

/// The bytes `s` start with the four magic bytes.
pub open spec fn has_magic(s: Seq<u8>) -> bool {
    s.len() >= 4 && s[0] == 0xCA && s[1] == 0xFE && s[2] == 0xBA && s[3] == 0xBE
}

// ---------------------------------------------------------------------------
// The byte cursor
// ---------------------------------------------------------------------------

/// A cursor over a byte buffer that only moves forward.
pub struct ByteStream<'a> {
    pub data: &'a [u8],
    pub pos: usize,
}

/// The byte at `p`, and the position after it.
pub open spec fn u1_at(s: Seq<u8>, p: int) -> Result<(u8, int), ParseError> {
    if 0 <= p && p + 1 <= s.len() {
        Ok((s[p], p + 1))
    } else {
        Err(ParseError::Io)
    }
}

/// The big-endian 16-bit number at `p`, and the position after it.
pub open spec fn u2_at(s: Seq<u8>, p: int) -> Result<(u16, int), ParseError> {
    if 0 <= p && p + 2 <= s.len() {
        Ok(((s[p] as int * 256 + s[p + 1] as int) as u16, p + 2))
    } else {
        Err(ParseError::Io)
    }
}

/// The big-endian 32-bit number at `p`, and the position after it.
pub open spec fn u4_at(s: Seq<u8>, p: int) -> Result<(u32, int), ParseError> {
    if 0 <= p && p + 4 <= s.len() {
        Ok(
            (
                (((s[p] as int * 256 + s[p + 1] as int) * 256 + s[p + 2] as int) * 256 + s[p
                    + 3] as int) as u32,
                p + 4,
            ),
        )
    } else {
        Err(ParseError::Io)
    }
}

/// The `n` bytes from `p` on, and the position after them.
pub open spec fn bytes_at(s: Seq<u8>, p: int, n: int) -> Result<(Seq<u8>, int), ParseError> {
    if 0 <= p && 0 <= n && p + n <= s.len() {
        Ok((s.subrange(p, p + n), p + n))
    } else {
        Err(ParseError::Io)
    }
}

/// A text field: a 16-bit length, then that many bytes of UTF-8.
pub open spec fn utf8_at(s: Seq<u8>, p: int) -> Result<(Seq<char>, int), ParseError> {
    match u2_at(s, p) {
        Err(e) => Err(e),
        Ok((len, p1)) => match bytes_at(s, p1, len as int) {
            Err(e) => Err(e),
            Ok((bytes, p2)) => if valid_utf8(bytes) {
                Ok((decode_utf8(bytes), p2))
            } else {
                Err(ParseError::FromUtf8)
            },
        },
    }
}

/// How a read leaves the cursor: on the same bytes, inside them, not before
/// where it was, and, where the read succeeds, with the expected value and at
/// the expected position.
pub open spec fn advanced<T>(
    before: ByteStream,
    after: ByteStream,
    expected: Result<(T, int), ParseError>,
    r: Result<T, ParseError>,
) -> bool {
    &&& after.data@ == before.data@
    &&& after.wf()
    &&& before.pos <= after.pos
    &&& match expected {
        Ok((v, p)) => r == Ok::<T, ParseError>(v) && after.pos == p,
        Err(e) => r == Err::<T, ParseError>(e),
    }
}

/// As [`advanced`], for a result that is compared by its view.
pub open spec fn advanced_to<T: View>(
    before: ByteStream,
    after: ByteStream,
    expected: Result<(T::V, int), ParseError>,
    r: Result<T, ParseError>,
) -> bool {
    &&& after.data@ == before.data@
    &&& after.wf()
    &&& before.pos <= after.pos
    &&& match expected {
        Ok((v, p)) => r is Ok && r->Ok_0@ == v && after.pos == p,
        Err(e) => r == Err::<T, ParseError>(e),
    }
}

impl<'a> ByteStream<'a> {
    /// The cursor is inside its buffer, or just past its end.
    pub open spec fn wf(&self) -> bool {
        self.pos <= self.data@.len()
    }

    /// A cursor at the start of `data`.
    pub fn new(data: &'a [u8]) -> (r: Self)
        ensures
            r.wf(),
            r.data@ == data@,
            r.pos == 0,
    {
        ByteStream { data, pos: 0 }
    }

    /// The number of bytes not yet read.
    pub fn remaining(&self) -> (r: usize)
        requires
            self.wf(),
        ensures
            r == self.data@.len() - self.pos,
            self.pos + r <= usize::MAX,
    {
        self.data.len() - self.pos
    }
}

/// Reads one byte.
pub fn read_u1(input: &mut ByteStream) -> (r: Result<u8, ParseError>)
    requires
        old(input).wf(),
    ensures
        advanced(*old(input), *final(input), u1_at(old(input).data@, old(input).pos as int), r),
{
    if input.remaining() < 1 {
        return Err(ParseError::Io);
    }
    let b: u8 = input.data[input.pos];
    input.pos = input.pos + 1;
    Ok(b)
}

/// Reads a big-endian 16-bit number.
pub fn read_u2(input: &mut ByteStream) -> (r: Result<u16, ParseError>)
    requires
        old(input).wf(),
    ensures
        advanced(*old(input), *final(input), u2_at(old(input).data@, old(input).pos as int), r),
{
    if input.remaining() < 2 {
        return Err(ParseError::Io);
    }
    let b0: u16 = input.data[input.pos] as u16;
    let b1: u16 = input.data[input.pos + 1] as u16;
    input.pos = input.pos + 2;
    Ok(b0 * 256 + b1)
}

/// Reads a big-endian 32-bit number.
pub fn read_u4(input: &mut ByteStream) -> (r: Result<u32, ParseError>)
    requires
        old(input).wf(),
    ensures
        advanced(*old(input), *final(input), u4_at(old(input).data@, old(input).pos as int), r),
{
    if input.remaining() < 4 {
        return Err(ParseError::Io);
    }
    let b0: u32 = input.data[input.pos] as u32;
    let b1: u32 = input.data[input.pos + 1] as u32;
    let b2: u32 = input.data[input.pos + 2] as u32;
    let b3: u32 = input.data[input.pos + 3] as u32;
    input.pos = input.pos + 4;
    Ok(((b0 * 256 + b1) * 256 + b2) * 256 + b3)
}

/// Reads the next `n` bytes.
pub fn read_bytes(input: &mut ByteStream, n: usize) -> (r: Result<Vec<u8>, ParseError>)
    requires
        old(input).wf(),
    ensures
        advanced_to(
            *old(input),
            *final(input),
            bytes_at(old(input).data@, old(input).pos as int, n as int),
            r,
        ),
{
    if input.remaining() < n {
        return Err(ParseError::Io);
    }
    let bytes = slice_to_vec(slice_subrange(input.data, input.pos, input.pos + n));
    input.pos = input.pos + n;
    Ok(bytes)
}

/// Calls `String::from_utf8` of std. The bytes are turned into text exactly
/// when they are valid UTF-8, and the text is then what they decode to.
#[verifier::external_body]
fn text_from_utf8(bytes: Vec<u8>) -> (r: Option<String>)
    ensures
        valid_utf8(bytes@) ==> r is Some && r->Some_0@ == decode_utf8(bytes@),
        !valid_utf8(bytes@) ==> r is None,
{
    String::from_utf8(bytes).ok()
}

/// Reads a text field: a 16-bit length and that many bytes, which have to be
/// valid UTF-8.
pub fn read_utf8(input: &mut ByteStream) -> (r: Result<String, ParseError>)
    requires
        old(input).wf(),
    ensures
        advanced_to(
            *old(input),
            *final(input),
            utf8_at(old(input).data@, old(input).pos as int),
            r,
        ),
{
    let len = read_u2(input)?;
    let data = read_bytes(input, len as usize)?;
    match text_from_utf8(data) {
        Some(text) => Ok(text),
        None => Err(ParseError::FromUtf8),
    }
}

// ---------------------------------------------------------------------------
// The structure of a class file
// ---------------------------------------------------------------------------

/// Two 16-bit numbers in a row.
pub open spec fn u2_pair_at(s: Seq<u8>, p: int) -> Result<((u16, u16), int), ParseError> {
    match u2_at(s, p) {
        Err(e) => Err(e),
        Ok((a, p1)) => match u2_at(s, p1) {
            Err(e) => Err(e),
            Ok((b, p2)) => Ok(((a, b), p2)),
        },
    }
}

/// Two 32-bit numbers in a row.
pub open spec fn u4_pair_at(s: Seq<u8>, p: int) -> Result<((u32, u32), int), ParseError> {
    match u4_at(s, p) {
        Err(e) => Err(e),
        Ok((a, p1)) => match u4_at(s, p1) {
            Err(e) => Err(e),
            Ok((b, p2)) => Ok(((a, b), p2)),
        },
    }
}

/// The entry with tag `tag` whose body is one 16-bit index.
pub open spec fn one_index_entry(tag: u8, index: u16) -> CpInfoView {
    if tag == 7 {
        CpInfoView::Class { name_index: index }
    } else if tag == 8 {
        CpInfoView::String { string_index: index }
    } else if tag == 16 {
        CpInfoView::MethodType { descriptor_index: index }
    } else if tag == 19 {
        CpInfoView::Module { name_index: index }
    } else {
        CpInfoView::Package { name_index: index }
    }
}

/// The entry with tag `tag` whose body is two 16-bit indices.
pub open spec fn two_index_entry(tag: u8, a: u16, b: u16) -> CpInfoView {
    if tag == 9 {
        CpInfoView::Fieldref { class_index: a, name_and_type_index: b }
    } else if tag == 10 {
        CpInfoView::Methodref { class_index: a, name_and_type_index: b }
    } else if tag == 11 {
        CpInfoView::InterfaceMethodref { class_index: a, name_and_type_index: b }
    } else if tag == 12 {
        CpInfoView::NameAndType { name_index: a, descriptor_index: b }
    } else if tag == 17 {
        CpInfoView::Dynamic { bootstrap_method_attr_index: a, name_and_type_index: b }
    } else {
        CpInfoView::InvokeDynamic { bootstrap_method_attr_index: a, name_and_type_index: b }
    }
}

/// The body of a constant-pool entry with tag `tag`, read from `p` on.
pub open spec fn cp_body_at(s: Seq<u8>, tag: u8, p: int) -> Result<(CpInfoView, int), ParseError> {
    if tag == 1 {
        match utf8_at(s, p) {
            Err(e) => Err(e),
            Ok((text, q)) => Ok((CpInfoView::Utf8(text), q)),
        }
    } else if tag == 3 || tag == 4 {
        match u4_at(s, p) {
            Err(e) => Err(e),
            Ok((v, q)) => Ok((if tag == 3 { CpInfoView::Integer(v) } else { CpInfoView::Float(v) }, q)),
        }
    } else if tag == 5 || tag == 6 {
        match u4_pair_at(s, p) {
            Err(e) => Err(e),
            Ok(((hi, lo), q)) => Ok((if tag == 5 { CpInfoView::Long(hi, lo) } else { CpInfoView::Double(hi, lo) }, q)),
        }
    } else if tag == 7 || tag == 8 || tag == 16 || tag == 19 || tag == 20 {
        match u2_at(s, p) {
            Err(e) => Err(e),
            Ok((index, q)) => Ok((one_index_entry(tag, index), q)),
        }
    } else if tag == 9 || tag == 10 || tag == 11 || tag == 12 || tag == 17 || tag == 18 {
        match u2_pair_at(s, p) {
            Err(e) => Err(e),
            Ok(((a, b), q)) => Ok((two_index_entry(tag, a, b), q)),
        }
    } else if tag == 15 {
        match u1_at(s, p) {
            Err(e) => Err(e),
            Ok((kind, p1)) => match u2_at(s, p1) {
                Err(e) => Err(e),
                Ok((index, q)) => Ok((CpInfoView::MethodHandle { reference_kind: kind, reference_index: index }, q)),
            },
        }
    } else {
        Err(ParseError::UnknownTag(tag))
    }
}

/// One constant-pool entry: a tag byte, then the body that the tag calls for.
pub open spec fn cp_info_at(s: Seq<u8>, p: int) -> Result<(CpInfoView, int), ParseError> {
    match u1_at(s, p) {
        Err(e) => Err(e),
        Ok((tag, p1)) => cp_body_at(s, tag, p1),
    }
}

/// The pool `acc`, filled up from `p` on until it has `count` slots. After a
/// `Long` or `Double` comes an empty slot, which counts.
pub open spec fn pool_from(
    s: Seq<u8>,
    p: int,
    count: int,
    acc: Seq<Option<CpInfoView>>,
) -> Result<(Seq<Option<CpInfoView>>, int), ParseError>
    decreases count + 1 - acc.len(),
{
    if acc.len() >= count {
        Ok((acc, p))
    } else {
        match cp_info_at(s, p) {
            Err(e) => Err(e),
            Ok((entry, q)) => if entry.is_wide() {
                pool_from(s, q, count, acc.push(Some(entry)).push(None))
            } else {
                pool_from(s, q, count, acc.push(Some(entry)))
            },
        }
    }
}

/// The list `acc` of 16-bit numbers, filled up from `p` on to `n` items.
pub open spec fn u2_list_from(
    s: Seq<u8>,
    p: int,
    n: int,
    acc: Seq<u16>,
) -> Result<(Seq<u16>, int), ParseError>
    decreases n - acc.len(),
{
    if acc.len() >= n {
        Ok((acc, p))
    } else {
        match u2_at(s, p) {
            Err(e) => Err(e),
            Ok((v, q)) => u2_list_from(s, q, n, acc.push(v)),
        }
    }
}

/// One attribute record: a name index, a 32-bit length, and that many bytes.
pub open spec fn attribute_at(s: Seq<u8>, p: int) -> Result<(AttributeInfoView, int), ParseError> {
    match u2_at(s, p) {
        Err(e) => Err(e),
        Ok((name, p1)) => match u4_at(s, p1) {
            Err(e) => Err(e),
            Ok((len, p2)) => match bytes_at(s, p2, len as int) {
                Err(e) => Err(e),
                Ok((info, p3)) => Ok((AttributeInfoView { attribute_name_index: name, info }, p3)),
            },
        },
    }
}

/// The list `acc` of attributes, filled up from `p` on to `n` items.
pub open spec fn attributes_from(
    s: Seq<u8>,
    p: int,
    n: int,
    acc: Seq<AttributeInfoView>,
) -> Result<(Seq<AttributeInfoView>, int), ParseError>
    decreases n - acc.len(),
{
    if acc.len() >= n {
        Ok((acc, p))
    } else {
        match attribute_at(s, p) {
            Err(e) => Err(e),
            Ok((a, q)) => attributes_from(s, q, n, acc.push(a)),
        }
    }
}

/// A 16-bit count and that many attributes.
pub open spec fn attribute_list_at(
    s: Seq<u8>,
    p: int,
) -> Result<(Seq<AttributeInfoView>, int), ParseError> {
    match u2_at(s, p) {
        Err(e) => Err(e),
        Ok((n, p1)) => attributes_from(s, p1, n as int, Seq::empty()),
    }
}

/// One field or method record: flags, name index, descriptor index, attributes.
pub open spec fn member_at(s: Seq<u8>, p: int) -> Result<(MemberView, int), ParseError> {
    match u2_at(s, p) {
        Err(e) => Err(e),
        Ok((access_flags, p1)) => match u2_pair_at(s, p1) {
            Err(e) => Err(e),
            Ok(((name_index, descriptor_index), p2)) => match attribute_list_at(s, p2) {
                Err(e) => Err(e),
                Ok((attributes, p3)) => Ok((MemberView { access_flags, name_index, descriptor_index, attributes }, p3)),
            },
        },
    }
}

/// The list `acc` of field or method records, filled up from `p` on to `n` items.
pub open spec fn members_from(
    s: Seq<u8>,
    p: int,
    n: int,
    acc: Seq<MemberView>,
) -> Result<(Seq<MemberView>, int), ParseError>
    decreases n - acc.len(),
{
    if acc.len() >= n {
        Ok((acc, p))
    } else {
        match member_at(s, p) {
            Err(e) => Err(e),
            Ok((m, q)) => members_from(s, q, n, acc.push(m)),
        }
    }
}

/// A 16-bit count and that many field or method records.
pub open spec fn member_list_at(s: Seq<u8>, p: int) -> Result<(Seq<MemberView>, int), ParseError> {
    match u2_at(s, p) {
        Err(e) => Err(e),
        Ok((n, p1)) => members_from(s, p1, n as int, Seq::empty()),
    }
}

/// The constant pool: a 16-bit count and the entries that fill the pool up to
/// it, behind the empty slot 0.
pub open spec fn pool_at(s: Seq<u8>, p: int) -> Result<(Seq<Option<CpInfoView>>, int), ParseError> {
    match u2_at(s, p) {
        Err(e) => Err(e),
        Ok((count, p1)) => pool_from(s, p1, count as int, seq![None]),
    }
}

/// A 16-bit count and that many interface indices.
pub open spec fn interfaces_at(s: Seq<u8>, p: int) -> Result<(Seq<u16>, int), ParseError> {
    match u2_at(s, p) {
        Err(e) => Err(e),
        Ok((n, p1)) => u2_list_from(s, p1, n as int, Seq::empty()),
    }
}

/// What follows the constant pool: flags, this class, super class, the
/// interfaces, fields, methods and attributes, and then the end of the input.
pub open spec fn class_body_at(
    s: Seq<u8>,
    p: int,
    minor_version: u16,
    major_version: u16,
    constant_pool: Seq<Option<CpInfoView>>,
) -> Result<ClassFileView, ParseError> {
    match u2_at(s, p) {
        Err(e) => Err(e),
        Ok((access_flags, p1)) => match u2_pair_at(s, p1) {
            Err(e) => Err(e),
            Ok(((this_class, super_class), p2)) => match interfaces_at(s, p2) {
                Err(e) => Err(e),
                Ok((interfaces, p3)) => match member_list_at(s, p3) {
                    Err(e) => Err(e),
                    Ok((fields, p4)) => match member_list_at(s, p4) {
                        Err(e) => Err(e),
                        Ok((methods, p5)) => match attribute_list_at(s, p5) {
                            Err(e) => Err(e),
                            Ok((attributes, p6)) => if p6 != s.len() {
                                Err(ParseError::TrailingData)
                            } else {
                                Ok(
                                    ClassFileView {
                                        magic: MAGIC,
                                        minor_version,
                                        major_version,
                                        constant_pool,
                                        access_flags,
                                        this_class,
                                        super_class,
                                        interfaces,
                                        fields,
                                        methods,
                                        attributes,
                                    },
                                )
                            },
                        },
                    },
                },
            },
        },
    }
}

/// The magic number at `p`: four bytes, which have to be the magic bytes.
pub open spec fn magic_at(s: Seq<u8>, p: int) -> Result<((), int), ParseError> {
    match u4_at(s, p) {
        Err(e) => Err(e),
        Ok((magic, q)) => if magic != MAGIC {
            Err(ParseError::BadMagicNumber)
        } else {
            Ok(((), q))
        },
    }
}

/// The record tree that the bytes `s` encode, or the first error met on the
/// way from the first byte to the last.
pub open spec fn class_file_of(s: Seq<u8>) -> Result<ClassFileView, ParseError> {
    match magic_at(s, 0) {
        Err(e) => Err(e),
        Ok((_, p1)) => match u2_pair_at(s, p1) {
            Err(e) => Err(e),
            Ok(((minor_version, major_version), p2)) => match pool_at(s, p2) {
                Err(e) => Err(e),
                Ok((constant_pool, p3)) => class_body_at(
                    s,
                    p3,
                    minor_version,
                    major_version,
                    constant_pool,
                ),
            },
        },
    }
}

fn read_u2_pair(input: &mut ByteStream) -> (r: Result<(u16, u16), ParseError>)
    requires
        old(input).wf(),
    ensures
        advanced(
            *old(input),
            *final(input),
            u2_pair_at(old(input).data@, old(input).pos as int),
            r,
        ),
{
    let a = read_u2(input)?;
    let b = read_u2(input)?;
    Ok((a, b))
}

fn read_u4_pair(input: &mut ByteStream) -> (r: Result<(u32, u32), ParseError>)
    requires
        old(input).wf(),
    ensures
        advanced(
            *old(input),
            *final(input),
            u4_pair_at(old(input).data@, old(input).pos as int),
            r,
        ),
{
    let a = read_u4(input)?;
    let b = read_u4(input)?;
    Ok((a, b))
}

/// Reads one constant-pool entry: its tag byte and the body that the tag calls
/// for. A tag that stands for no kind of entry is refused.
pub fn read_cp_info(input: &mut ByteStream) -> (r: Result<CpInfo, ParseError>)
    requires
        old(input).wf(),
    ensures
        advanced_to(
            *old(input),
            *final(input),
            cp_info_at(old(input).data@, old(input).pos as int),
            r,
        ),
{
    let tag = read_u1(input)?;
    match tag {
        1 => Ok(CpInfo::Utf8(read_utf8(input)?)),
        3 => Ok(CpInfo::Integer(read_u4(input)?)),
        4 => Ok(CpInfo::Float(read_u4(input)?)),
        5 => {
            let (hi, lo) = read_u4_pair(input)?;
            Ok(CpInfo::Long(hi, lo))
        },
        6 => {
            let (hi, lo) = read_u4_pair(input)?;
            Ok(CpInfo::Double(hi, lo))
        },
        7 => Ok(CpInfo::Class { name_index: read_u2(input)? }),
        8 => Ok(CpInfo::String { string_index: read_u2(input)? }),
        9 => {
            let (class_index, name_and_type_index) = read_u2_pair(input)?;
            Ok(CpInfo::Fieldref { class_index, name_and_type_index })
        },
        10 => {
            let (class_index, name_and_type_index) = read_u2_pair(input)?;
            Ok(CpInfo::Methodref { class_index, name_and_type_index })
        },
        11 => {
            let (class_index, name_and_type_index) = read_u2_pair(input)?;
            Ok(CpInfo::InterfaceMethodref { class_index, name_and_type_index })
        },
        12 => {
            let (name_index, descriptor_index) = read_u2_pair(input)?;
            Ok(CpInfo::NameAndType { name_index, descriptor_index })
        },
        15 => {
            let reference_kind = read_u1(input)?;
            let reference_index = read_u2(input)?;
            Ok(CpInfo::MethodHandle { reference_kind, reference_index })
        },
        16 => Ok(CpInfo::MethodType { descriptor_index: read_u2(input)? }),
        17 => {
            let (bootstrap_method_attr_index, name_and_type_index) = read_u2_pair(input)?;
            Ok(CpInfo::Dynamic { bootstrap_method_attr_index, name_and_type_index })
        },
        18 => {
            let (bootstrap_method_attr_index, name_and_type_index) = read_u2_pair(input)?;
            Ok(CpInfo::InvokeDynamic { bootstrap_method_attr_index, name_and_type_index })
        },
        19 => Ok(CpInfo::Module { name_index: read_u2(input)? }),
        20 => Ok(CpInfo::Package { name_index: read_u2(input)? }),
        _ => Err(ParseError::UnknownTag(tag)),
    }
}

/// Reads one attribute: name index, 32-bit length, and that many bytes, which
/// are kept as they are.
pub fn read_attribute_info(input: &mut ByteStream) -> (r: Result<AttributeInfo, ParseError>)
    requires
        old(input).wf(),
    ensures
        advanced_to(
            *old(input),
            *final(input),
            attribute_at(old(input).data@, old(input).pos as int),
            r,
        ),
{
    let attribute_name_index = read_u2(input)?;
    let attribute_length = read_u4(input)?;
    let info = read_bytes(input, attribute_length as usize)?;
    Ok(AttributeInfo { attribute_name_index, info })
}

/// Reads a 16-bit count and that many attributes.
fn read_attribute_list(input: &mut ByteStream) -> (r: Result<Vec<AttributeInfo>, ParseError>)
    requires
        old(input).wf(),
    ensures
        final(input).data@ == old(input).data@,
        final(input).wf(),
        old(input).pos <= final(input).pos,
        match attribute_list_at(old(input).data@, old(input).pos as int) {
            Ok((v, p)) => r is Ok && attributes_view(r->Ok_0@) == v && final(input).pos == p,
            Err(e) => r == Err::<Vec<AttributeInfo>, ParseError>(e),
        },
{
    let ghost s = input.data@;
    let ghost whole = attribute_list_at(s, input.pos as int);
    let attributes_count = read_u2(input)?;
    let mut attributes: Vec<AttributeInfo> = Vec::new();
    assert(attributes_view(attributes@) =~= Seq::empty());
    while attributes.len() < attributes_count as usize
        invariant
            input.wf(),
            input.data@ == s,
            s == old(input).data@,
            old(input).pos <= input.pos,
            whole == attribute_list_at(s, old(input).pos as int),
            attributes.len() <= attributes_count,
            whole == attributes_from(
                s,
                input.pos as int,
                attributes_count as int,
                attributes_view(attributes@),
            ),
        decreases attributes_count - attributes.len(),
    {
        let ghost before = attributes_view(attributes@);
        let attribute = read_attribute_info(input)?;
        attributes.push(attribute);
        assert(attributes_view(attributes@) =~= before.push(attribute@));
    }
    Ok(attributes)
}

/// Reads one field record.
pub fn read_field_info(input: &mut ByteStream) -> (r: Result<FieldInfo, ParseError>)
    requires
        old(input).wf(),
    ensures
        advanced_to(
            *old(input),
            *final(input),
            member_at(old(input).data@, old(input).pos as int),
            r,
        ),
{
    let access_flags = read_u2(input)?;
    let (name_index, descriptor_index) = read_u2_pair(input)?;
    let attributes = read_attribute_list(input)?;
    Ok(FieldInfo { access_flags, name_index, descriptor_index, attributes })
}

/// Reads one method record.
pub fn read_method_info(input: &mut ByteStream) -> (r: Result<MethodInfo, ParseError>)
    requires
        old(input).wf(),
    ensures
        advanced_to(
            *old(input),
            *final(input),
            member_at(old(input).data@, old(input).pos as int),
            r,
        ),
{
    let access_flags = read_u2(input)?;
    let (name_index, descriptor_index) = read_u2_pair(input)?;
    let attributes = read_attribute_list(input)?;
    Ok(MethodInfo { access_flags, name_index, descriptor_index, attributes })
}

/// Reads the constant-pool count and the entries behind it.
fn read_constant_pool(input: &mut ByteStream) -> (r: Result<Vec<Option<CpInfo>>, ParseError>)
    requires
        old(input).wf(),
    ensures
        final(input).data@ == old(input).data@,
        final(input).wf(),
        old(input).pos <= final(input).pos,
        match pool_at(old(input).data@, old(input).pos as int) {
            Ok((v, p)) => r is Ok && pool_view(r->Ok_0@) == v && final(input).pos == p,
            Err(e) => r == Err::<Vec<Option<CpInfo>>, ParseError>(e),
        },
{
    let ghost s = input.data@;
    let ghost whole = pool_at(s, input.pos as int);
    let constant_pool_count = read_u2(input)?;
    let mut constant_pool: Vec<Option<CpInfo>> = Vec::new();
    constant_pool.push(None);
    assert(pool_view(constant_pool@) =~= seq![None]);
    while constant_pool.len() < constant_pool_count as usize
        invariant
            input.wf(),
            input.data@ == s,
            s == old(input).data@,
            old(input).pos <= input.pos,
            whole == pool_at(s, old(input).pos as int),
            whole == pool_from(
                s,
                input.pos as int,
                constant_pool_count as int,
                pool_view(constant_pool@),
            ),
        decreases constant_pool_count + 1 - constant_pool.len(),
    {
        let ghost before = pool_view(constant_pool@);
        let entry = read_cp_info(input)?;
        let ghost entry_view = entry@;
        let wide = match &entry {
            CpInfo::Long(..) => true,
            CpInfo::Double(..) => true,
            _ => false,
        };
        constant_pool.push(Some(entry));
        assert(pool_view(constant_pool@) =~= before.push(Some(entry_view)));
        if wide {
            constant_pool.push(None);
            assert(pool_view(constant_pool@) =~= before.push(Some(entry_view)).push(None));
        }
    }
    Ok(constant_pool)
}

/// Reads a 16-bit count and that many interface indices.
fn read_interfaces(input: &mut ByteStream) -> (r: Result<Vec<u16>, ParseError>)
    requires
        old(input).wf(),
    ensures
        advanced_to(
            *old(input),
            *final(input),
            interfaces_at(old(input).data@, old(input).pos as int),
            r,
        ),
{
    let ghost s = input.data@;
    let ghost whole = interfaces_at(s, input.pos as int);
    let interfaces_count = read_u2(input)?;
    let mut interfaces: Vec<u16> = Vec::new();
    while interfaces.len() < interfaces_count as usize
        invariant
            input.wf(),
            input.data@ == s,
            s == old(input).data@,
            old(input).pos <= input.pos,
            whole == interfaces_at(s, old(input).pos as int),
            interfaces.len() <= interfaces_count,
            whole == u2_list_from(s, input.pos as int, interfaces_count as int, interfaces@),
        decreases interfaces_count - interfaces.len(),
    {
        let index = read_u2(input)?;
        interfaces.push(index);
    }
    Ok(interfaces)
}

/// Reads a 16-bit count and that many field records.
fn read_fields(input: &mut ByteStream) -> (r: Result<Vec<FieldInfo>, ParseError>)
    requires
        old(input).wf(),
    ensures
        final(input).data@ == old(input).data@,
        final(input).wf(),
        old(input).pos <= final(input).pos,
        match member_list_at(old(input).data@, old(input).pos as int) {
            Ok((v, p)) => r is Ok && fields_view(r->Ok_0@) == v && final(input).pos == p,
            Err(e) => r == Err::<Vec<FieldInfo>, ParseError>(e),
        },
{
    let ghost s = input.data@;
    let ghost whole = member_list_at(s, input.pos as int);
    let fields_count = read_u2(input)?;
    let mut fields: Vec<FieldInfo> = Vec::new();
    assert(fields_view(fields@) =~= Seq::empty());
    while fields.len() < fields_count as usize
        invariant
            input.wf(),
            input.data@ == s,
            s == old(input).data@,
            old(input).pos <= input.pos,
            whole == member_list_at(s, old(input).pos as int),
            fields.len() <= fields_count,
            whole == members_from(s, input.pos as int, fields_count as int, fields_view(fields@)),
        decreases fields_count - fields.len(),
    {
        let ghost before = fields_view(fields@);
        let field = read_field_info(input)?;
        fields.push(field);
        assert(fields_view(fields@) =~= before.push(field@));
    }
    Ok(fields)
}

/// Reads a 16-bit count and that many method records.
fn read_methods(input: &mut ByteStream) -> (r: Result<Vec<MethodInfo>, ParseError>)
    requires
        old(input).wf(),
    ensures
        final(input).data@ == old(input).data@,
        final(input).wf(),
        old(input).pos <= final(input).pos,
        match member_list_at(old(input).data@, old(input).pos as int) {
            Ok((v, p)) => r is Ok && methods_view(r->Ok_0@) == v && final(input).pos == p,
            Err(e) => r == Err::<Vec<MethodInfo>, ParseError>(e),
        },
{
    let ghost s = input.data@;
    let ghost whole = member_list_at(s, input.pos as int);
    let method_count = read_u2(input)?;
    let mut methods: Vec<MethodInfo> = Vec::new();
    assert(methods_view(methods@) =~= Seq::empty());
    while methods.len() < method_count as usize
        invariant
            input.wf(),
            input.data@ == s,
            s == old(input).data@,
            old(input).pos <= input.pos,
            whole == member_list_at(s, old(input).pos as int),
            methods.len() <= method_count,
            whole == members_from(s, input.pos as int, method_count as int, methods_view(methods@)),
        decreases method_count - methods.len(),
    {
        let ghost before = methods_view(methods@);
        let method = read_method_info(input)?;
        methods.push(method);
        assert(methods_view(methods@) =~= before.push(method@));
    }
    Ok(methods)
}

/// Reads the magic number. Four bytes other than the magic bytes are refused
/// with the cursor behind them: nothing else has been read by then.
pub fn read_magic(input: &mut ByteStream) -> (r: Result<(), ParseError>)
    requires
        old(input).wf(),
    ensures
        advanced(*old(input), *final(input), magic_at(old(input).data@, old(input).pos as int), r),
        r == Err::<(), ParseError>(ParseError::BadMagicNumber) ==> final(input).pos == old(
            input,
        ).pos + 4,
{
    let magic = read_u4(input)?;
    if magic != MAGIC {
        return Err(ParseError::BadMagicNumber);
    }
    Ok(())
}

/// Decodes the bytes of one class file into its record tree.
///
/// The result is exactly [`class_file_of`] of the input: the tree where the
/// bytes are well formed from the first to the last, else the first error.
/// Input that does not start with the four magic bytes is refused as such,
/// whatever follows. In the pool of a tree the empty slots are slot 0 and the
/// slot behind each `Long` and `Double`, and no others.
pub fn parse(input: &[u8]) -> (r: Result<ClassFile, ParseError>)
    ensures
        match class_file_of(input@) {
            Ok(v) => r is Ok && r->Ok_0@ == v,
            Err(e) => r == Err::<ClassFile, ParseError>(e),
        },
        input@.len() >= 4 && !has_magic(input@) ==> r == Err::<ClassFile, ParseError>(
            ParseError::BadMagicNumber,
        ),
        r is Ok ==> r->Ok_0.magic == MAGIC && pool_complete(
            pool_view(r->Ok_0.constant_pool@),
            u2_at(input@, 8)->Ok_0.0 as int,
        ) && phantoms_empty(pool_view(r->Ok_0.constant_pool@)) && only_phantoms_empty(
            pool_view(r->Ok_0.constant_pool@),
        ),
{
    let mut stream = ByteStream::new(input);
    read_magic(&mut stream)?;
    let (minor_version, major_version) = read_u2_pair(&mut stream)?;
    let constant_pool = read_constant_pool(&mut stream)?;
    proof {
        let count = u2_at(input@, 8)->Ok_0.0 as int;
        assert(empty_at(seq![None::<CpInfoView>], 0));
        lemma_pool_from(input@, 10, count, seq![None]);
    }
    let access_flags = read_u2(&mut stream)?;
    let (this_class, super_class) = read_u2_pair(&mut stream)?;
    let interfaces = read_interfaces(&mut stream)?;
    let fields = read_fields(&mut stream)?;
    let methods = read_methods(&mut stream)?;
    let attributes = read_attribute_list(&mut stream)?;
    if stream.remaining() != 0 {
        return Err(ParseError::TrailingData);
    }
    Ok(
        ClassFile {
            magic: MAGIC,
            minor_version,
            major_version,
            constant_pool,
            access_flags,
            this_class,
            super_class,
            interfaces,
            fields,
            methods,
            attributes,
        },
    )
}

// ---------------------------------------------------------------------------
// What holds of every decoded pool
// ---------------------------------------------------------------------------

/// Slot `k` of the pool holds a `Long` or a `Double`.
pub open spec fn wide_at(pool: Seq<Option<CpInfoView>>, k: int) -> bool {
    0 <= k < pool.len() && pool[k] is Some && pool[k]->Some_0.is_wide()
}

/// Every `Long` and `Double` of the pool is followed by an empty slot.
pub open spec fn phantoms_empty(pool: Seq<Option<CpInfoView>>) -> bool {
    forall|k: int| #[trigger] wide_at(pool, k) ==> k + 1 < pool.len() && pool[k + 1] is None
}

/// Slot `k` of the pool is empty.
pub open spec fn empty_at(pool: Seq<Option<CpInfoView>>, k: int) -> bool {
    0 <= k < pool.len() && pool[k] is None
}

/// Slot 0 is empty, and every other empty slot stands behind a `Long` or a
/// `Double`.
pub open spec fn only_phantoms_empty(pool: Seq<Option<CpInfoView>>) -> bool {
    &&& empty_at(pool, 0)
    &&& forall|k: int| #[trigger] empty_at(pool, k) ==> k == 0 || wide_at(pool, k - 1)
}

/// The pool has as many slots as `count` declares. The two exceptions: a count
/// of 0 still leaves the empty slot 0, and a `Long` or `Double` in the last
/// declared slot brings its empty slot with it.
pub open spec fn pool_complete(pool: Seq<Option<CpInfoView>>, count: int) -> bool {
    ||| pool.len() == count
    ||| count == 0 && pool.len() == 1
    ||| pool.len() == count + 1 && wide_at(pool, count - 1)
}

/// Filling a pool up keeps the empty slot behind each `Long` and `Double`,
/// adds no other empty slot, and ends at the declared count (see
/// [`pool_complete`]).
pub proof fn lemma_pool_from(s: Seq<u8>, p: int, count: int, acc: Seq<Option<CpInfoView>>)
    requires
        phantoms_empty(acc),
        only_phantoms_empty(acc),
        pool_complete(acc, count) || acc.len() < count,
    ensures
        pool_from(s, p, count, acc) is Ok ==> phantoms_empty(pool_from(s, p, count, acc)->Ok_0.0)
            && only_phantoms_empty(pool_from(s, p, count, acc)->Ok_0.0) && pool_complete(
            pool_from(s, p, count, acc)->Ok_0.0,
            count,
        ),
    decreases count + 1 - acc.len(),
{
    if acc.len() < count {
        match cp_info_at(s, p) {
            Err(e) => {},
            Ok((entry, q)) => {
                let next = if entry.is_wide() {
                    acc.push(Some(entry)).push(None)
                } else {
                    acc.push(Some(entry))
                };
                assert forall|k: int| #[trigger] wide_at(next, k) implies k + 1 < next.len()
                    && next[k + 1] is None by {
                    if k < acc.len() {
                        assert(wide_at(acc, k));
                    }
                }
                if entry.is_wide() {
                    assert(wide_at(next, acc.len() as int));
                }
                assert(empty_at(acc, 0));
                assert(empty_at(next, 0));
                assert forall|k: int| #[trigger] empty_at(next, k) implies k == 0 || wide_at(
                    next,
                    k - 1,
                ) by {
                    if k < acc.len() {
                        assert(empty_at(acc, k));
                        if k != 0 {
                            assert(wide_at(acc, k - 1));
                        }
                    }
                }
                lemma_pool_from(s, q, count, next);
            },
        }
    }
}

} // verus!
